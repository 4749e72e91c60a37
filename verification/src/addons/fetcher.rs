//! Messages exchanged with the background thread that talks to GitHub.

use crate::addons::types::{Addon, AddonError, ScriptType};
use vstd::prelude::*;

verus! {

/// Result of a background fetch operation.
#[derive(Debug)]
pub enum FetchResult {
    /// Addon list fetched successfully.
    AddonList(Vec<Addon>),
    /// Script content fetched successfully.
    Script {
        /// The addon the script belongs to.
        addon_id: String,
        /// Which script it is.
        script_type: ScriptType,
        /// The script's text.
        content: String,
    },
    /// Fetch operation failed.
    Error(AddonError),
}

/// Request for a background fetch operation.
#[derive(Debug, Clone)]
pub enum FetchRequest {
    /// Fetch the list of available addons.
    FetchAddonList {
        /// Bypass the cache.
        force_refresh: bool,
    },
    /// Fetch a script for an addon.
    FetchScript {
        /// The addon whose script is wanted.
        addon_id: String,
        /// Which script.
        script_type: ScriptType,
    },
}

/// Status of the background fetcher.
#[derive(Debug, Clone, Copy, PartialEq, Eq, Structural)]
pub enum FetcherStatus {
    /// Fetcher is idle, no operation in progress.
    Idle,
    /// Currently fetching addon list.
    FetchingList,
    /// Currently fetching a script.
    FetchingScript,
}

/// The status the fetcher shows while it works on `request`.
pub fn status_for(request: &FetchRequest) -> (r: FetcherStatus)
    ensures
        r == (match request {
            FetchRequest::FetchAddonList { .. } => FetcherStatus::FetchingList,
            FetchRequest::FetchScript { .. } => FetcherStatus::FetchingScript,
        }),
{
    match request {
        FetchRequest::FetchAddonList { .. } => FetcherStatus::FetchingList,
        FetchRequest::FetchScript { .. } => FetcherStatus::FetchingScript,
    }
}

/// True while the fetcher has an operation in progress.
pub fn is_busy(status: FetcherStatus) -> (r: bool)
    ensures
        r == (status != FetcherStatus::Idle),
{
    match status {
        FetcherStatus::Idle => false,
        _ => true,
    }
}

} // verus!
