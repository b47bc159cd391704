use vstd::prelude::*;

use crate::diagnostics::{counts_of, health_of, performance_of};
use crate::scheduler::RefreshScheduler;
use crate::types::{NetworkPerformance, NodeHealth, RawMetrics, TroubleshootResults};

verus! {

/// The four tabbed views of the dashboard, in display order.
#[derive(Debug, Clone, Copy, PartialEq, Eq)]
pub enum AppMode {
    NodeHealth,
    NetworkPerformance,
    Troubleshoot,
    Monitor,
}

/// One discrete keyboard event, already reduced to the four inputs that mean
/// anything to the dashboard; everything else is `Other` and is ignored.
#[derive(Debug, Clone, Copy, PartialEq, Eq)]
pub enum InputEvent {
    Quit,
    Left,
    Right,
    Refresh,
    Other,
}

/// What the caller of the input router must do next: end the session, run an
/// immediate out-of-band refresh, or nothing beyond the next frame.
#[derive(Debug, Clone, Copy, PartialEq, Eq)]
pub enum InputAction {
    Exit,
    RefreshNow,
    Continue,
}

/// The one mutable object of the dashboard: the latest snapshot of each
/// metrics category plus the currently selected tab.
#[derive(Debug, Clone, PartialEq)]
pub struct App {
    pub mode: AppMode,
    pub node_health: NodeHealth,
    pub network_performance: NetworkPerformance,
    pub troubleshoot_results: TroubleshootResults,
    pub selected_tab: usize,
}

/// The tab index always names one of the four views.
pub open spec fn tab_in_range(tab: usize) -> bool {
    0 <= tab <= 3
}

/// Tab selection one step to the left, saturating at the first tab. The
/// dashboard uses this saturating policy at both edges in every mode: the
/// selection stops at the outer tabs rather than wrapping around.
pub open spec fn spec_move_left(tab: usize) -> usize {
    if tab == 0 {
        0usize
    } else {
        (tab - 1) as usize
    }
}

/// Tab selection one step to the right, saturating at the last tab.
pub open spec fn spec_move_right(tab: usize) -> usize {
    if tab < 3 {
        (tab + 1) as usize
    } else {
        tab
    }
}

/// The tab selected after one input event: left and right move it, with the
/// saturating boundary policy, and every other event leaves it alone.
pub open spec fn spec_tab_after_event(tab: usize, ev: InputEvent) -> usize {
    match ev {
        InputEvent::Left => spec_move_left(tab),
        InputEvent::Right => spec_move_right(tab),
        _ => tab,
    }
}

/// The tab selected after a whole sequence of input events, applied in order.
pub open spec fn spec_tab_after_events(tab: usize, evs: Seq<InputEvent>) -> usize
    decreases evs.len(),
{
    if evs.len() == 0 {
        tab
    } else {
        spec_tab_after_events(spec_tab_after_event(tab, evs[0]), evs.drop_first())
    }
}

impl App {
    /// Well-formed application state: the selected tab names a view.
    pub open spec fn wf(self) -> bool {
        tab_in_range(self.selected_tab)
    }

    /// The state the dashboard starts from: all snapshots empty and the
    /// first tab selected.
    pub fn new(mode: AppMode) -> (r: App)
        ensures
            r.mode == mode,
            !r.node_health.is_responsive,
            r.node_health.version is None,
            r.node_health.current_slot is None,
            r.node_health.current_epoch is None,
            r.node_health.total_nodes is None,
            r.network_performance.tps_milli == 0,
            r.network_performance.avg_block_time_milli is None,
            r.network_performance.confirmation_time_ms is None,
            r.troubleshoot_results.delinquent_validators == 0,
            r.troubleshoot_results.empty_blocks == 0,
            r.troubleshoot_results.large_accounts == 0,
            r.selected_tab == 0,
            r.wf(),
    {
        App {
            mode,
            node_health: NodeHealth::default(),
            network_performance: NetworkPerformance::default(),
            troubleshoot_results: TroubleshootResults::default(),
            selected_tab: 0,
        }
    }

    /// Move the selected tab one view to the left, stopping at the first.
    pub fn select_left(&mut self)
        ensures
            *final(self) == (App { selected_tab: spec_move_left(old(self).selected_tab), ..*old(
                self,
            ) }),
            old(self).wf() ==> final(self).wf(),
    {
        if self.selected_tab > 0 {
            self.selected_tab = self.selected_tab - 1;
        }
    }

    /// Move the selected tab one view to the right, stopping at the last.
    pub fn select_right(&mut self)
        ensures
            *final(self) == (App { selected_tab: spec_move_right(old(self).selected_tab), ..*old(
                self,
            ) }),
            old(self).wf() ==> final(self).wf(),
    {
        if self.selected_tab < 3 {
            self.selected_tab = self.selected_tab + 1;
        }
    }

    /// Input router: consume one event and perform exactly one of ending the
    /// session, moving the tab selection, or requesting an immediate
    /// refresh; any other key changes nothing. Only tab moves touch the
    /// state, and they touch nothing but `selected_tab`.
    pub fn handle_input(&mut self, ev: InputEvent) -> (r: InputAction)
        ensures
            *final(self) == (App { selected_tab: spec_tab_after_event(
                old(self).selected_tab,
                ev,
            ), ..*old(self) }),
            r == (match ev {
                InputEvent::Quit => InputAction::Exit,
                InputEvent::Refresh => InputAction::RefreshNow,
                _ => InputAction::Continue,
            }),
            old(self).wf() ==> final(self).wf(),
    {
        match ev {
            InputEvent::Quit => InputAction::Exit,
            InputEvent::Refresh => InputAction::RefreshNow,
            InputEvent::Left => {
                self.select_left();
                InputAction::Continue
            },
            InputEvent::Right => {
                self.select_right();
                InputAction::Continue
            },
            InputEvent::Other => InputAction::Continue,
        }
    }

    /// Overwrite every snapshot with what this round of raw query answers
    /// determines. Nothing of the previous snapshots survives: a field whose
    /// query failed this round comes out absent (or zero, for the counts),
    /// never as the stale value of an earlier round. The selected tab and
    /// mode are untouched.
    pub fn apply_refresh(&mut self, raw: RawMetrics)
        ensures
            *final(self) == (App {
                node_health: health_of(raw),
                network_performance: performance_of(raw),
                troubleshoot_results: counts_of(raw),
                ..*old(self)
            }),
            old(self).wf() ==> final(self).wf(),
    {
        let RawMetrics {
            health_ok,
            version,
            slot,
            epoch,
            total_nodes,
            perf_sample,
            confirmation_time_ms,
            delinquent_validators,
            empty_blocks,
            large_accounts,
        } = raw;
        self.node_health = crate::diagnostics::node_health_from_queries(
            health_ok,
            version,
            slot,
            epoch,
            total_nodes,
        );
        self.network_performance = crate::diagnostics::performance_from_sample(
            &perf_sample,
            confirmation_time_ms,
        );
        self.troubleshoot_results = TroubleshootResults {
            delinquent_validators: delinquent_validators.unwrap_or(0),
            empty_blocks: empty_blocks.unwrap_or(0),
            large_accounts: large_accounts.unwrap_or(0),
        };
    }

    /// An out-of-band refresh requested by input: run the same full overwrite
    /// as an automatic tick and restart the scheduler's interval at `now_ms`,
    /// so that no near-duplicate automatic refresh follows right after.
    pub fn manual_refresh(
        &mut self,
        scheduler: &mut RefreshScheduler,
        raw: RawMetrics,
        now_ms: u64,
    )
        ensures
            *final(self) == (App {
                node_health: health_of(raw),
                network_performance: performance_of(raw),
                troubleshoot_results: counts_of(raw),
                ..*old(self)
            }),
            *final(scheduler) == (RefreshScheduler {
                last_refresh_ms: now_ms,
                ..*old(scheduler)
            }),
            old(self).wf() ==> final(self).wf(),
    {
        self.apply_refresh(raw);
        scheduler.mark_refreshed(now_ms);
    }
}

/// However the snapshots looked before, a refresh leaves absent exactly the
/// fields whose queries failed this round: the state after `apply_refresh`
/// is a function of the raw answers alone, and a `None` answer gives a
/// `None` field.
pub proof fn lemma_refresh_forgets_failed_queries(raw: RawMetrics)
    ensures
        raw.version is None ==> health_of(raw).version is None,
        raw.slot is None ==> health_of(raw).current_slot is None,
        raw.epoch is None ==> health_of(raw).current_epoch is None,
        raw.total_nodes is None ==> health_of(raw).total_nodes is None,
        raw.perf_sample is None ==> performance_of(raw).tps_milli == 0,
        raw.perf_sample is None ==> performance_of(raw).avg_block_time_milli is None,
        raw.confirmation_time_ms is None ==> performance_of(raw).confirmation_time_ms is None,
        raw.delinquent_validators is None ==> counts_of(raw).delinquent_validators == 0,
        raw.empty_blocks is None ==> counts_of(raw).empty_blocks == 0,
        raw.large_accounts is None ==> counts_of(raw).large_accounts == 0,
{
}

/// Under the saturating boundary policy, the selected tab stays one of the
/// four views after any sequence of input events whatsoever.
pub proof fn lemma_tab_stays_in_range(tab: usize, evs: Seq<InputEvent>)
    requires
        tab_in_range(tab),
    ensures
        tab_in_range(spec_tab_after_events(tab, evs)),
    decreases evs.len(),
{
    if evs.len() > 0 {
        lemma_tab_stays_in_range(spec_tab_after_event(tab, evs[0]), evs.drop_first());
    }
}

} // verus!
