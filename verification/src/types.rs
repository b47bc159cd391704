use vstd::prelude::*;

verus! {

/// Latest point-in-time health picture of the node. Every field other than
/// `is_responsive` is optional: a query that failed on the most recent refresh
/// leaves its field `None`, regardless of what an earlier refresh saw.
#[derive(Debug, Clone, PartialEq)]
pub struct NodeHealth {
    pub is_responsive: bool,
    pub version: Option<String>,
    pub current_slot: Option<u64>,
    pub current_epoch: Option<u64>,
    pub total_nodes: Option<u64>,
}

impl Default for NodeHealth {
    /// The all-unknown snapshot that the dashboard starts from.
    fn default() -> (r: Self)
        ensures
            !r.is_responsive,
            r.version is None,
            r.current_slot is None,
            r.current_epoch is None,
            r.total_nodes is None,
    {
        NodeHealth {
            is_responsive: false,
            version: None,
            current_slot: None,
            current_epoch: None,
            total_nodes: None,
        }
    }
}

/// Throughput figures derived from the most recent performance sample.
///
/// Rates and durations are carried as integers in thousandths so that the
/// arithmetic stays exact: `tps_milli` is transactions per second times 1000
/// (rounded down), `avg_block_time_milli` and `confirmation_time_ms` are
/// durations in milliseconds.
#[derive(Debug, Clone, Copy, PartialEq, Eq)]
pub struct NetworkPerformance {
    pub tps_milli: u64,
    pub avg_block_time_milli: Option<u64>,
    pub confirmation_time_ms: Option<u64>,
}

impl Default for NetworkPerformance {
    /// Zero throughput and no block or confirmation timing.
    fn default() -> (r: Self)
        ensures
            r.tps_milli == 0,
            r.avg_block_time_milli is None,
            r.confirmation_time_ms is None,
    {
        NetworkPerformance { tps_milli: 0, avg_block_time_milli: None, confirmation_time_ms: None }
    }
}

/// Anomaly counts shown on the troubleshoot and monitor views. A count whose
/// query failed on the most recent refresh is reported as 0.
#[derive(Debug, Clone, Copy, PartialEq, Eq)]
pub struct TroubleshootResults {
    pub delinquent_validators: u64,
    pub empty_blocks: u64,
    pub large_accounts: u64,
}

impl Default for TroubleshootResults {
    fn default() -> (r: Self)
        ensures
            r.delinquent_validators == 0,
            r.empty_blocks == 0,
            r.large_accounts == 0,
    {
        TroubleshootResults { delinquent_validators: 0, empty_blocks: 0, large_accounts: 0 }
    }
}

/// One recent performance sample as the metrics source reports it: how many
/// transactions and slots fell in a sampling window of `sample_period_secs`.
#[derive(Debug, Clone, Copy, PartialEq, Eq)]
pub struct PerfSample {
    pub num_transactions: u64,
    pub num_slots: u64,
    pub sample_period_secs: u64,
}

/// The raw answers of one full round of metrics queries, each already reduced
/// to a plain value. `None` means that query failed this round; the refresh
/// logic never fills such a field in from older data.
#[derive(Debug, Clone, PartialEq)]
pub struct RawMetrics {
    pub health_ok: bool,
    pub version: Option<String>,
    pub slot: Option<u64>,
    pub epoch: Option<u64>,
    pub total_nodes: Option<u64>,
    pub perf_sample: Option<PerfSample>,
    pub confirmation_time_ms: Option<u64>,
    pub delinquent_validators: Option<u64>,
    pub empty_blocks: Option<u64>,
    pub large_accounts: Option<u64>,
}

} // verus!
