use vstd::prelude::*;

use crate::probe::ProbeResult;
use crate::types::{NodeHealth, NetworkPerformance, PerfSample, RawMetrics};

verus! {

/// Why a full network-performance evaluation reports no result.
#[derive(Debug, Clone, Copy, PartialEq, Eq)]
pub enum MetricsError {
    ConfirmationTimeout,
}

/// The node is flagged as congested when it runs more transactions per second
/// than this.
pub const CONGESTION_TPS_THRESHOLD: u64 = 1500;

/// A single metrics round-trip slower than this flags high latency.
pub const HIGH_LATENCY_THRESHOLD_MS: u64 = 500;

/// The version string the node is expected to report.
pub open spec fn spec_expected_version() -> Seq<char> {
    "1.14.0"@
}

/// Executable counterpart of [`spec_expected_version`].
pub fn expected_version() -> (r: String)
    ensures
        r@ == spec_expected_version(),
{
    "1.14.0".to_owned()
}

/// The sampled rate strictly exceeds the congestion threshold: as an exact
/// comparison of rationals, `num_transactions / sample_period_secs > 1500`.
/// For a zero-length sampling window this holds exactly when any transaction
/// was seen at all.
pub open spec fn spec_congested(s: PerfSample) -> bool {
    s.num_transactions > CONGESTION_TPS_THRESHOLD * s.sample_period_secs
}

/// `x` cut down to the `u64` range.
pub open spec fn clamp_to_u64(x: int) -> u64 {
    if x > u64::MAX {
        u64::MAX
    } else {
        x as u64
    }
}

/// Transactions per second of the sample, in exact thousandths rounded down;
/// 0 when there is no sample or its window is empty.
pub open spec fn spec_tps_milli(sample: Option<PerfSample>) -> u64 {
    match sample {
        Some(s) => {
            if s.sample_period_secs == 0 {
                0
            } else {
                clamp_to_u64((s.num_transactions as int) * 1000 / (s.sample_period_secs as int))
            }
        },
        None => 0,
    }
}

/// Average seconds per slot of the sample, in exact milliseconds rounded
/// down; unknown when there is no sample or it covers no slot.
pub open spec fn spec_avg_block_time_milli(sample: Option<PerfSample>) -> Option<u64> {
    match sample {
        Some(s) => {
            if s.num_slots == 0 {
                None
            } else {
                Some(clamp_to_u64((s.sample_period_secs as int) * 1000 / (s.num_slots as int)))
            }
        },
        None => None,
    }
}

/// The health snapshot that one round of raw query answers determines: each
/// field comes from its own query of this round and from nothing else.
pub open spec fn health_of(raw: RawMetrics) -> NodeHealth {
    NodeHealth {
        is_responsive: raw.health_ok,
        version: raw.version,
        current_slot: raw.slot,
        current_epoch: raw.epoch,
        total_nodes: raw.total_nodes,
    }
}

/// The performance snapshot that one round of raw query answers determines.
pub open spec fn performance_of(raw: RawMetrics) -> NetworkPerformance {
    NetworkPerformance {
        tps_milli: spec_tps_milli(raw.perf_sample),
        avg_block_time_milli: spec_avg_block_time_milli(raw.perf_sample),
        confirmation_time_ms: raw.confirmation_time_ms,
    }
}

/// The anomaly counts that one round of raw query answers determines; a
/// failed count query reports 0.
pub open spec fn counts_of(raw: RawMetrics) -> crate::types::TroubleshootResults {
    crate::types::TroubleshootResults {
        delinquent_validators: raw.delinquent_validators.unwrap_or(0),
        empty_blocks: raw.empty_blocks.unwrap_or(0),
        large_accounts: raw.large_accounts.unwrap_or(0),
    }
}

/// Boolean health flags derived from one evaluation round.
#[derive(Debug, Clone, Copy, PartialEq, Eq)]
pub struct TroubleshootResults {
    pub connection_status: bool,
    pub version_mismatch: bool,
    pub high_latency: bool,
    pub network_congestion: bool,
}

impl Default for TroubleshootResults {
    /// All clear: nothing measured yet, so nothing is flagged.
    fn default() -> (r: Self)
        ensures
            !r.connection_status,
            !r.version_mismatch,
            !r.high_latency,
            !r.network_congestion,
    {
        TroubleshootResults {
            connection_status: false,
            version_mismatch: false,
            high_latency: false,
            network_congestion: false,
        }
    }
}

/// Build the health snapshot for one refresh round from the raw query
/// answers alone. A query that failed hands in `None` and its field stays
/// absent: nothing is carried over from any earlier round.
pub fn node_health_from_queries(
    health_ok: bool,
    version: Option<String>,
    slot: Option<u64>,
    epoch: Option<u64>,
    total_nodes: Option<u64>,
) -> (r: NodeHealth)
    ensures
        r == (NodeHealth {
            is_responsive: health_ok,
            version,
            current_slot: slot,
            current_epoch: epoch,
            total_nodes,
        }),
{
    NodeHealth { is_responsive: health_ok, version, current_slot: slot, current_epoch: epoch, total_nodes }
}

/// Derive the performance snapshot from the most recent sample, if any, and
/// an already-measured confirmation time. The rates are exact integer
/// thousandths of the real quotients, rounded down.
pub fn performance_from_sample(sample: &Option<PerfSample>, confirmation_time_ms: Option<u64>) -> (r:
    NetworkPerformance)
    ensures
        r.tps_milli == spec_tps_milli(*sample),
        r.avg_block_time_milli == spec_avg_block_time_milli(*sample),
        r.confirmation_time_ms == confirmation_time_ms,
{
    let tps_milli: u64 = match sample {
        Some(s) => {
            if s.sample_period_secs == 0 {
                0
            } else {
                let q: u128 = (s.num_transactions as u128) * 1000 / (s.sample_period_secs as u128);
                if q > (u64::MAX as u128) {
                    u64::MAX
                } else {
                    q as u64
                }
            }
        },
        None => 0,
    };
    let avg_block_time_milli: Option<u64> = match sample {
        Some(s) => {
            if s.num_slots == 0 {
                None
            } else {
                let q: u128 = (s.sample_period_secs as u128) * 1000 / (s.num_slots as u128);
                if q > (u64::MAX as u128) {
                    Some(u64::MAX)
                } else {
                    Some(q as u64)
                }
            }
        },
        None => None,
    };
    NetworkPerformance { tps_milli, avg_block_time_milli, confirmation_time_ms }
}

/// Finish the standalone network-performance evaluation: combine the most
/// recent sample with the decided outcome of the slot-advance poll. A poll
/// that saw the slot advance yields the full snapshot with its elapsed time
/// as the confirmation time; a poll that ran out of its time budget is an
/// explicit failure, never a numeric confirmation time.
pub fn network_performance_report(sample: &Option<PerfSample>, outcome: &ProbeResult) -> (r: Result<
    NetworkPerformance,
    MetricsError,
>)
    requires
        !((*outcome) is Pending),
    ensures
        r is Ok <==> (*outcome) is Confirmed,
        (*outcome) matches ProbeResult::Confirmed(t) ==> ((r->Ok_0).tps_milli == spec_tps_milli(
            *sample,
        ) && (r->Ok_0).avg_block_time_milli == spec_avg_block_time_milli(*sample) && (
        r->Ok_0).confirmation_time_ms == Some(t)),
        (*outcome) is TimedOut ==> r == Err::<NetworkPerformance, MetricsError>(
            MetricsError::ConfirmationTimeout,
        ),
{
    match outcome {
        ProbeResult::Confirmed(t) => Ok(performance_from_sample(sample, Some(*t))),
        _ => Err(MetricsError::ConfirmationTimeout),
    }
}

/// Diagnostics evaluator: map one round of measurements to boolean health
/// flags, with no side effects.
///
/// - `connection_status` repeats whether the health query succeeded.
/// - `version_mismatch` is raised only when a version was actually retrieved
///   and differs from the expected baseline; with no version it stays down.
/// - `high_latency` is raised only when a round trip was measured and took
///   more than 500 ms.
/// - `network_congestion` is raised only when a sample was retrieved and its
///   rate strictly exceeds 1500 transactions per second.
pub fn evaluate_troubleshoot(
    connection_ok: bool,
    version: &Option<String>,
    latency_ms: &Option<u64>,
    sample: &Option<PerfSample>,
) -> (r: TroubleshootResults)
    ensures
        r.connection_status == connection_ok,
        r.version_mismatch == ((*version) matches Some(v) && v@ != spec_expected_version()),
        r.high_latency == ((*latency_ms) matches Some(l) && l > HIGH_LATENCY_THRESHOLD_MS),
        r.network_congestion == ((*sample) matches Some(s) && spec_congested(s)),
{
    let version_mismatch: bool = match version {
        Some(v) => {
            let expected = expected_version();
            !(*v == expected)
        },
        None => false,
    };
    let high_latency: bool = match latency_ms {
        Some(l) => *l > HIGH_LATENCY_THRESHOLD_MS,
        None => false,
    };
    let network_congestion: bool = match sample {
        Some(s) => (s.num_transactions as u128) > (CONGESTION_TPS_THRESHOLD as u128) * (
        s.sample_period_secs as u128),
        None => false,
    };
    TroubleshootResults {
        connection_status: connection_ok,
        version_mismatch,
        high_latency,
        network_congestion,
    }
}

} // verus!
