use vstd::prelude::*;

use crate::app::App;
use crate::types::{NetworkPerformance, NodeHealth, TroubleshootResults};

verus! {

/// Which figure a widget shows; the drawing layer owns the display text for
/// each.
#[derive(Debug, Clone, Copy, PartialEq, Eq)]
pub enum Metric {
    NodeStatus,
    CurrentSlot,
    Version,
    CurrentEpoch,
    TotalNodes,
    Tps,
    AvgBlockTime,
    ConfirmationTime,
    DelinquentValidators,
    EmptyBlocks,
    LargeAccounts,
}

/// One widget of a view body, as plain data for the drawing layer: a status
/// line, a labelled number or text, a duration in milliseconds to show as
/// seconds, a bounded 0-100 gauge, or the fixed list of recommendations.
#[derive(Debug, Clone, PartialEq)]
pub enum Widget {
    StatusText { metric: Metric, online: bool },
    CountLine { metric: Metric, value: u64 },
    TextLine { metric: Metric, text: String },
    SecondsLine { metric: Metric, millis: u64 },
    GaugeBar { metric: Metric, percent: u16 },
    RecommendationList,
}

/// What one frame of the dashboard shows: which tab is highlighted in the
/// tab bar and the widgets of the one view body that tab selects.
#[derive(Debug, Clone, PartialEq)]
pub struct ViewModel {
    pub selected_tab: usize,
    pub widgets: Vec<Widget>,
}

/// Whole transactions per second on the bounded 0-100 gauge: rates above 100
/// are pinned at 100, a deliberate display limitation of the gauge.
pub open spec fn spec_tps_percent(tps_milli: u64) -> u16 {
    if tps_milli / 1000 > 100 {
        100u16
    } else {
        (tps_milli / 1000) as u16
    }
}

/// A count on the bounded 0-100 gauge: counts above 100 are pinned at 100.
pub open spec fn spec_count_percent(count: u64) -> u16 {
    if count > 100 {
        100u16
    } else {
        count as u16
    }
}

/// A count line for a present value, nothing for an absent one.
pub open spec fn opt_count_line(metric: Metric, v: Option<u64>) -> Seq<Widget> {
    match v {
        Some(x) => seq![Widget::CountLine { metric, value: x }],
        None => seq![],
    }
}

/// A seconds line for a present duration, nothing for an absent one.
pub open spec fn opt_seconds_line(metric: Metric, v: Option<u64>) -> Seq<Widget> {
    match v {
        Some(x) => seq![Widget::SecondsLine { metric, millis: x }],
        None => seq![],
    }
}

/// The node-health view body: the responsiveness status line always, then
/// slot, version, epoch and node count, each only when present -- an absent
/// field is omitted, not zero-filled.
pub open spec fn node_health_widgets(h: NodeHealth) -> Seq<Widget> {
    seq![Widget::StatusText { metric: Metric::NodeStatus, online: h.is_responsive }]
        + opt_count_line(Metric::CurrentSlot, h.current_slot) + (match h.version {
        Some(v) => seq![Widget::TextLine { metric: Metric::Version, text: v }],
        None => seq![],
    }) + opt_count_line(Metric::CurrentEpoch, h.current_epoch) + opt_count_line(
        Metric::TotalNodes,
        h.total_nodes,
    )
}

/// The network-performance view body: the bounded tps gauge always, then
/// average block time and confirmation time when present.
pub open spec fn network_performance_widgets(p: NetworkPerformance) -> Seq<Widget> {
    seq![Widget::GaugeBar { metric: Metric::Tps, percent: spec_tps_percent(p.tps_milli) }]
        + opt_seconds_line(Metric::AvgBlockTime, p.avg_block_time_milli) + opt_seconds_line(
        Metric::ConfirmationTime,
        p.confirmation_time_ms,
    )
}

/// The troubleshoot view body: the delinquent-validator gauge, the two
/// counts, and the fixed recommendation list.
pub open spec fn troubleshoot_widgets(t: TroubleshootResults) -> Seq<Widget> {
    seq![
        Widget::GaugeBar {
            metric: Metric::DelinquentValidators,
            percent: spec_count_percent(t.delinquent_validators),
        },
        Widget::CountLine { metric: Metric::EmptyBlocks, value: t.empty_blocks },
        Widget::CountLine { metric: Metric::LargeAccounts, value: t.large_accounts },
        Widget::RecommendationList,
    ]
}

/// The monitor view body: a condensed cross-section of the other three views
/// on one screen.
pub open spec fn monitor_widgets(a: App) -> Seq<Widget> {
    seq![
        Widget::StatusText { metric: Metric::NodeStatus, online: a.node_health.is_responsive },
        Widget::GaugeBar {
            metric: Metric::Tps,
            percent: spec_tps_percent(a.network_performance.tps_milli),
        },
    ] + opt_count_line(Metric::CurrentSlot, a.node_health.current_slot) + opt_seconds_line(
        Metric::AvgBlockTime,
        a.network_performance.avg_block_time_milli,
    ) + seq![
        Widget::CountLine {
            metric: Metric::DelinquentValidators,
            value: a.troubleshoot_results.delinquent_validators,
        },
    ]
}

/// The body of the one view that the selected tab picks.
pub open spec fn spec_view_widgets(a: App) -> Seq<Widget> {
    if a.selected_tab == 0 {
        node_health_widgets(a.node_health)
    } else if a.selected_tab == 1 {
        network_performance_widgets(a.network_performance)
    } else if a.selected_tab == 2 {
        troubleshoot_widgets(a.troubleshoot_results)
    } else {
        monitor_widgets(a)
    }
}

/// Build the node-health view body.
pub fn render_node_health(h: &NodeHealth) -> (r: Vec<Widget>)
    ensures
        r@ == node_health_widgets(*h),
{
    let mut out: Vec<Widget> = Vec::new();
    out.push(Widget::StatusText { metric: Metric::NodeStatus, online: h.is_responsive });
    if let Some(slot) = h.current_slot {
        out.push(Widget::CountLine { metric: Metric::CurrentSlot, value: slot });
    }
    if let Some(version) = &h.version {
        out.push(Widget::TextLine { metric: Metric::Version, text: version.clone() });
    }
    if let Some(epoch) = h.current_epoch {
        out.push(Widget::CountLine { metric: Metric::CurrentEpoch, value: epoch });
    }
    if let Some(total_nodes) = h.total_nodes {
        out.push(Widget::CountLine { metric: Metric::TotalNodes, value: total_nodes });
    }
    proof {
        assert(out@ =~= node_health_widgets(*h));
    }
    out
}

/// Pin whole transactions per second to the 0-100 gauge range.
pub fn tps_percent(tps_milli: u64) -> (r: u16)
    ensures
        r == spec_tps_percent(tps_milli),
        r <= 100,
{
    let whole: u64 = tps_milli / 1000;
    if whole > 100 {
        100
    } else {
        whole as u16
    }
}

/// Pin a count to the 0-100 gauge range.
pub fn count_percent(count: u64) -> (r: u16)
    ensures
        r == spec_count_percent(count),
        r <= 100,
{
    if count > 100 {
        100
    } else {
        count as u16
    }
}

/// Build the network-performance view body.
pub fn render_network_performance(p: &NetworkPerformance) -> (r: Vec<Widget>)
    ensures
        r@ == network_performance_widgets(*p),
{
    let mut out: Vec<Widget> = Vec::new();
    out.push(Widget::GaugeBar { metric: Metric::Tps, percent: tps_percent(p.tps_milli) });
    if let Some(block_time) = p.avg_block_time_milli {
        out.push(Widget::SecondsLine { metric: Metric::AvgBlockTime, millis: block_time });
    }
    if let Some(conf_time) = p.confirmation_time_ms {
        out.push(Widget::SecondsLine { metric: Metric::ConfirmationTime, millis: conf_time });
    }
    proof {
        assert(out@ =~= network_performance_widgets(*p));
    }
    out
}

/// Build the troubleshoot view body.
pub fn render_troubleshoot(t: &TroubleshootResults) -> (r: Vec<Widget>)
    ensures
        r@ == troubleshoot_widgets(*t),
{
    let mut out: Vec<Widget> = Vec::new();
    out.push(Widget::GaugeBar {
        metric: Metric::DelinquentValidators,
        percent: count_percent(t.delinquent_validators),
    });
    out.push(Widget::CountLine { metric: Metric::EmptyBlocks, value: t.empty_blocks });
    out.push(Widget::CountLine { metric: Metric::LargeAccounts, value: t.large_accounts });
    out.push(Widget::RecommendationList);
    proof {
        assert(out@ =~= troubleshoot_widgets(*t));
    }
    out
}

/// Build the monitor view body.
pub fn render_monitor(a: &App) -> (r: Vec<Widget>)
    ensures
        r@ == monitor_widgets(*a),
{
    let mut out: Vec<Widget> = Vec::new();
    out.push(Widget::StatusText { metric: Metric::NodeStatus, online: a.node_health.is_responsive });
    out.push(Widget::GaugeBar {
        metric: Metric::Tps,
        percent: tps_percent(a.network_performance.tps_milli),
    });
    if let Some(slot) = a.node_health.current_slot {
        out.push(Widget::CountLine { metric: Metric::CurrentSlot, value: slot });
    }
    if let Some(block_time) = a.network_performance.avg_block_time_milli {
        out.push(Widget::SecondsLine { metric: Metric::AvgBlockTime, millis: block_time });
    }
    out.push(Widget::CountLine {
        metric: Metric::DelinquentValidators,
        value: a.troubleshoot_results.delinquent_validators,
    });
    proof {
        assert(out@ =~= monitor_widgets(*a));
    }
    out
}

/// View renderer: project the application state into the one frame to draw,
/// without mutating anything. The frame holds the highlighted tab index and
/// the body of exactly the view that tab selects; absent snapshot fields are
/// tolerated everywhere and simply leave their widgets out.
pub fn render(a: &App) -> (vm: ViewModel)
    requires
        a.wf(),
    ensures
        vm.selected_tab == a.selected_tab,
        vm.widgets@ == spec_view_widgets(*a),
{
    let widgets = if a.selected_tab == 0 {
        render_node_health(&a.node_health)
    } else if a.selected_tab == 1 {
        render_network_performance(&a.network_performance)
    } else if a.selected_tab == 2 {
        render_troubleshoot(&a.troubleshoot_results)
    } else {
        render_monitor(a)
    };
    ViewModel { selected_tab: a.selected_tab, widgets }
}

} // verus!
