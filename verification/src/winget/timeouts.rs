//! Time limits for winget commands.
use vstd::prelude::*;

verus! {

/// Time limit of a query command (search / list / upgrade listing), in seconds.
pub const QUERY_TIMEOUT_SECS: u64 = 30;

/// Time limit of a changing command (install / upgrade / uninstall), in seconds.
pub const ACTION_TIMEOUT_SECS: u64 = 600;

} // verus!
