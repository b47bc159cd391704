use solprobe::probe::{evaluate_probe, probe_step, ProbeResult, SlotObservation};

fn obs(elapsed_ms: u64, slot: u64) -> SlotObservation {
    SlotObservation { elapsed_ms, slot }
}

#[test]
fn step_confirms_when_the_slot_advances_in_time() {
    assert_eq!(probe_step(100, obs(700, 101)), ProbeResult::Confirmed(700));
}

#[test]
fn step_keeps_polling_while_nothing_moves() {
    assert_eq!(probe_step(100, obs(700, 100)), ProbeResult::Pending);
    assert_eq!(probe_step(100, obs(700, 99)), ProbeResult::Pending);
}

#[test]
fn step_times_out_past_the_budget() {
    // The budget is checked before the chain is looked at again: past 30
    // seconds even an advanced slot no longer counts.
    assert_eq!(probe_step(100, obs(30_001, 101)), ProbeResult::TimedOut);
    assert_eq!(probe_step(100, obs(30_000, 100)), ProbeResult::Pending);
    assert_eq!(probe_step(100, obs(30_000, 101)), ProbeResult::Confirmed(30_000));
}

#[test]
fn poll_reports_the_first_decision() {
    let observations = vec![obs(100, 50), obs(200, 50), obs(350, 51), obs(400, 60)];
    assert_eq!(evaluate_probe(50, &observations), ProbeResult::Confirmed(350));
}

#[test]
fn poll_without_advance_times_out_not_confirms() {
    // Thirty seconds of simulated time pass and the slot never rises: the
    // outcome is a timeout, not a numeric confirmation time.
    let mut observations = Vec::new();
    let mut t: u64 = 0;
    while t <= 30_000 {
        observations.push(obs(t, 50));
        t += 100;
    }
    observations.push(obs(30_100, 50));
    assert_eq!(evaluate_probe(50, &observations), ProbeResult::TimedOut);
}

#[test]
fn poll_that_runs_out_of_observations_is_pending() {
    let observations = vec![obs(100, 50), obs(200, 50)];
    assert_eq!(evaluate_probe(50, &observations), ProbeResult::Pending);
    assert_eq!(evaluate_probe(50, &Vec::new()), ProbeResult::Pending);
}
