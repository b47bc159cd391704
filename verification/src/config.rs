use vstd::prelude::*;

use crate::scheduler::DEFAULT_UPDATE_INTERVAL_SECS;

verus! {

/// The endpoint polled when the user configures or enters none.
pub open spec fn spec_default_url() -> Seq<char> {
    "https://api.mainnet-beta.solana.com"@
}

/// Startup configuration: which endpoint to poll and how many seconds apart
/// to refresh. Read once at startup; the engine never looks at it again.
#[derive(Debug, Clone, PartialEq)]
pub struct Config {
    pub default_url: String,
    pub update_interval: u64,
}

impl Default for Config {
    /// The configuration written out on first start.
    fn default() -> (r: Self)
        ensures
            r.default_url@ == spec_default_url(),
            r.update_interval == DEFAULT_UPDATE_INTERVAL_SECS,
    {
        Config {
            default_url: default_url(),
            update_interval: DEFAULT_UPDATE_INTERVAL_SECS,
        }
    }
}

/// Executable counterpart of [`spec_default_url`].
pub fn default_url() -> (r: String)
    ensures
        r@ == spec_default_url(),
{
    "https://api.mainnet-beta.solana.com".to_owned()
}

/// The endpoint a user entry means: an empty entry stands for the default
/// endpoint, anything else is taken verbatim.
pub fn resolve_url(input: &str) -> (r: String)
    ensures
        input@.len() == 0 ==> r@ == spec_default_url(),
        input@.len() > 0 ==> r@ == input@,
{
    if input.is_empty() {
        default_url()
    } else {
        input.to_owned()
    }
}

} // verus!
