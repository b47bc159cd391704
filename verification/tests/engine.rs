use solprobe::app::{App, AppMode, InputAction, InputEvent};
use solprobe::cli::{mode_of_command, Commands};
use solprobe::scheduler::RefreshScheduler;
use solprobe::types::{PerfSample, RawMetrics};

fn full_round() -> RawMetrics {
    RawMetrics {
        health_ok: true,
        version: Some(String::from("1.14.0")),
        slot: Some(1200),
        epoch: Some(300),
        total_nodes: Some(9),
        perf_sample: Some(PerfSample { num_transactions: 3000, num_slots: 4, sample_period_secs: 2 }),
        confirmation_time_ms: Some(500),
        delinquent_validators: Some(3),
        empty_blocks: Some(12),
        large_accounts: Some(20),
    }
}

fn failed_round() -> RawMetrics {
    RawMetrics {
        health_ok: false,
        version: None,
        slot: None,
        epoch: None,
        total_nodes: None,
        perf_sample: None,
        confirmation_time_ms: None,
        delinquent_validators: None,
        empty_blocks: None,
        large_accounts: None,
    }
}

#[test]
fn starts_empty_on_first_tab() {
    let app = App::new(AppMode::Monitor);
    assert_eq!(app.selected_tab, 0);
    assert!(!app.node_health.is_responsive);
    assert_eq!(app.node_health.version, None);
    assert_eq!(app.network_performance.tps_milli, 0);
    assert_eq!(app.troubleshoot_results.delinquent_validators, 0);
}

#[test]
fn tab_saturates_at_both_ends() {
    let mut app = App::new(AppMode::Monitor);
    app.handle_input(InputEvent::Left);
    assert_eq!(app.selected_tab, 0);
    app.handle_input(InputEvent::Right);
    app.handle_input(InputEvent::Right);
    app.handle_input(InputEvent::Right);
    assert_eq!(app.selected_tab, 3);
    app.handle_input(InputEvent::Right);
    assert_eq!(app.selected_tab, 3);
    app.handle_input(InputEvent::Left);
    assert_eq!(app.selected_tab, 2);
}

#[test]
fn tab_stays_in_range_under_any_event_sequence() {
    let mut app = App::new(AppMode::Monitor);
    let events = [
        InputEvent::Right,
        InputEvent::Right,
        InputEvent::Left,
        InputEvent::Right,
        InputEvent::Right,
        InputEvent::Right,
        InputEvent::Right,
        InputEvent::Left,
        InputEvent::Left,
        InputEvent::Left,
        InputEvent::Left,
        InputEvent::Left,
    ];
    for ev in events {
        app.handle_input(ev);
        assert!(app.selected_tab <= 3);
    }
    assert_eq!(app.selected_tab, 0);
}

#[test]
fn router_maps_events_to_actions() {
    let mut app = App::new(AppMode::Monitor);
    assert_eq!(app.handle_input(InputEvent::Quit), InputAction::Exit);
    assert_eq!(app.handle_input(InputEvent::Refresh), InputAction::RefreshNow);
    assert_eq!(app.handle_input(InputEvent::Other), InputAction::Continue);
    assert_eq!(app.handle_input(InputEvent::Right), InputAction::Continue);
    assert_eq!(app.selected_tab, 1);
}

#[test]
fn refresh_overwrites_with_fresh_answers() {
    let mut app = App::new(AppMode::Monitor);
    app.apply_refresh(full_round());
    assert!(app.node_health.is_responsive);
    assert_eq!(app.node_health.current_slot, Some(1200));
    assert_eq!(app.network_performance.tps_milli, 1_500_000);
    assert_eq!(app.network_performance.avg_block_time_milli, Some(500));
    assert_eq!(app.troubleshoot_results.empty_blocks, 12);
}

#[test]
fn failed_queries_are_absent_not_stale() {
    // A refresh whose queries all fail leaves nothing of the previous
    // successful round behind.
    let mut app = App::new(AppMode::Monitor);
    app.apply_refresh(full_round());
    app.apply_refresh(failed_round());
    assert!(!app.node_health.is_responsive);
    assert_eq!(app.node_health.version, None);
    assert_eq!(app.node_health.current_slot, None);
    assert_eq!(app.node_health.current_epoch, None);
    assert_eq!(app.node_health.total_nodes, None);
    assert_eq!(app.network_performance.tps_milli, 0);
    assert_eq!(app.network_performance.avg_block_time_milli, None);
    assert_eq!(app.network_performance.confirmation_time_ms, None);
    assert_eq!(app.troubleshoot_results.delinquent_validators, 0);
    assert_eq!(app.troubleshoot_results.empty_blocks, 0);
    assert_eq!(app.troubleshoot_results.large_accounts, 0);
}

#[test]
fn refresh_leaves_tab_alone() {
    let mut app = App::new(AppMode::Monitor);
    app.handle_input(InputEvent::Right);
    app.apply_refresh(full_round());
    assert_eq!(app.selected_tab, 1);
}

#[test]
fn each_subcommand_starts_its_view() {
    assert_eq!(mode_of_command(&Commands::NodeHealth), AppMode::NodeHealth);
    assert_eq!(mode_of_command(&Commands::NetworkPerformance), AppMode::NetworkPerformance);
    assert_eq!(mode_of_command(&Commands::Troubleshoot), AppMode::Troubleshoot);
    assert_eq!(mode_of_command(&Commands::Monitor), AppMode::Monitor);
}

#[test]
fn scheduler_fires_only_after_a_full_interval() {
    let mut s = RefreshScheduler::new(5, 1_000);
    assert_eq!(s.interval_ms, 5_000);
    assert!(!s.poll_auto_refresh(1_000));
    assert!(!s.poll_auto_refresh(5_999));
    assert!(s.poll_auto_refresh(6_000));
    // The interval restarts from the tick that fired.
    assert!(!s.poll_auto_refresh(10_999));
    assert!(s.poll_auto_refresh(11_000));
}

#[test]
fn manual_refresh_defers_the_next_automatic_one() {
    // An automatic refresh fires, and a manual refresh follows right after:
    // no second automatic refresh until a full interval after the manual one.
    let mut app = App::new(AppMode::Monitor);
    let mut s = RefreshScheduler::new(5, 0);
    assert!(s.poll_auto_refresh(5_000));
    app.manual_refresh(&mut s, full_round(), 5_100);
    assert!(!s.poll_auto_refresh(5_200));
    assert!(!s.poll_auto_refresh(9_999));
    assert!(!s.poll_auto_refresh(10_099));
    assert!(s.poll_auto_refresh(10_100));
}
