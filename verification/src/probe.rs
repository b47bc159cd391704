use vstd::prelude::*;

verus! {

/// Time budget of the slot-advance poll: past this much elapsed time the
/// probe gives up and reports a timeout instead of a confirmation time.
pub const CONFIRMATION_TIMEOUT_MS: u64 = 30000;

/// One look at the chain during the slot-advance poll: the slot height seen
/// and how much wall-clock time had elapsed since the poll began when the
/// budget was last checked.
#[derive(Debug, Clone, Copy, PartialEq, Eq)]
pub struct SlotObservation {
    pub elapsed_ms: u64,
    pub slot: u64,
}

/// Where the slot-advance poll stands: the slot advanced after the recorded
/// number of milliseconds, the time budget ran out first, or neither has
/// happened yet and polling goes on.
#[derive(Debug, Clone, Copy, PartialEq, Eq)]
pub enum ProbeResult {
    Confirmed(u64),
    TimedOut,
    Pending,
}

/// The outcome the poll reaches on a sequence of observations, examined in
/// order: the first over-budget observation ends it in `TimedOut`, the first
/// slot above `start_slot` within budget ends it in `Confirmed`, and a
/// sequence that runs out first leaves it `Pending`.
pub open spec fn spec_probe(start_slot: u64, obs: Seq<SlotObservation>) -> ProbeResult
    decreases obs.len(),
{
    if obs.len() == 0 {
        ProbeResult::Pending
    } else if obs[0].elapsed_ms > CONFIRMATION_TIMEOUT_MS {
        ProbeResult::TimedOut
    } else if obs[0].slot > start_slot {
        ProbeResult::Confirmed(obs[0].elapsed_ms)
    } else {
        spec_probe(start_slot, obs.drop_first())
    }
}

/// One decision step of the slot-advance poll. The budget is checked first,
/// as the poll does before it looks at the chain again: an over-budget
/// observation times out even if its slot has advanced.
pub fn probe_step(start_slot: u64, observation: SlotObservation) -> (r: ProbeResult)
    ensures
        r == spec_probe(start_slot, seq![observation]),
        r is Pending <==> (observation.elapsed_ms <= CONFIRMATION_TIMEOUT_MS
            && observation.slot <= start_slot),
{
    let r = if observation.elapsed_ms > CONFIRMATION_TIMEOUT_MS {
        ProbeResult::TimedOut
    } else if observation.slot > start_slot {
        ProbeResult::Confirmed(observation.elapsed_ms)
    } else {
        ProbeResult::Pending
    };
    proof {
        let s = seq![observation];
        assert(s.len() == 1 && s[0] == observation);
        assert(s.drop_first() =~= Seq::<SlotObservation>::empty());
        assert(spec_probe(start_slot, s.drop_first()) == ProbeResult::Pending);
    }
    r
}

/// Run the slot-advance poll over a recorded sequence of observations, e.g.
/// over simulated time.
pub fn evaluate_probe(start_slot: u64, observations: &Vec<SlotObservation>) -> (r: ProbeResult)
    ensures
        r == spec_probe(start_slot, observations@),
{
    let n: usize = observations.len();
    proof {
        assert(observations@.subrange(0, n as int) =~= observations@);
    }
    let mut i: usize = 0;
    while i < n
        invariant
            0 <= i <= n,
            n == observations@.len(),
            spec_probe(start_slot, observations@) == spec_probe(
                start_slot,
                observations@.subrange(i as int, n as int),
            ),
        decreases n - i,
    {
        let step = probe_step(start_slot, observations[i]);
        proof {
            let rest = observations@.subrange(i as int, n as int);
            assert(rest[0] == observations@[i as int]);
            assert(rest.drop_first() =~= observations@.subrange(i as int + 1, n as int));
            assert(seq![observations@[i as int]].drop_first() =~= Seq::<
                SlotObservation,
            >::empty());
        }
        match step {
            ProbeResult::Pending => {
            },
            _ => {
                return step;
            },
        }
        i = i + 1;
    }
    proof {
        assert(observations@.subrange(n as int, n as int) =~= Seq::<SlotObservation>::empty());
    }
    ProbeResult::Pending
}

/// If the slot height never rises above where the poll began, and the
/// observations do run past the time budget, the poll reports a timeout --
/// never a numeric confirmation time.
pub proof fn lemma_no_advance_times_out(start_slot: u64, obs: Seq<SlotObservation>)
    requires
        forall|i: int| 0 <= i < obs.len() ==> (#[trigger] obs[i]).slot <= start_slot,
        exists|i: int|
            0 <= i < obs.len() && (#[trigger] obs[i]).elapsed_ms > CONFIRMATION_TIMEOUT_MS,
    ensures
        spec_probe(start_slot, obs) == ProbeResult::TimedOut,
    decreases obs.len(),
{
    let w = choose|i: int|
        0 <= i < obs.len() && (#[trigger] obs[i]).elapsed_ms > CONFIRMATION_TIMEOUT_MS;
    if obs[0].elapsed_ms > CONFIRMATION_TIMEOUT_MS {
    } else {
        assert(w != 0);
        assert(obs.drop_first()[w - 1] == obs[w]);
        assert(forall|i: int|
            0 <= i < obs.drop_first().len() ==> (#[trigger] obs.drop_first()[i]).slot
                <= start_slot) by {
            assert(forall|i: int|
                0 <= i < obs.drop_first().len() ==> obs.drop_first()[i] == obs[i + 1]);
        }
        lemma_no_advance_times_out(start_slot, obs.drop_first());
    }
}

} // verus!
