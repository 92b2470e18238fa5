//! Entitlement and licensing message shapes.

use vstd::prelude::*;

verus! {

/// Consumes uses of an entitlement.
#[derive(Debug, Clone, PartialEq)]
pub struct ConsumeEntitlement {
    pub user_id: u64,
    pub uses: i32,
    pub b_overuse: bool,
    pub entitlement: Entitlement,
}

/// The entitlement after consumption.
#[derive(Debug, Clone, PartialEq)]
pub struct ConsumeEntitlementResponse {
    pub entitlement: Entitlement,
}

/// One entitlement record.
#[derive(Debug, Clone, PartialEq)]
pub struct Entitlement {
    pub kind: String,
    pub item_id: String,
    pub entitlement_id: String,
    pub entitlement_tag: String,
    pub group: String,
    pub resource_id: String,
    pub use_count: i32,
    pub expiration: String,
    pub grant_date: String,
    pub last_modified_date: String,
    pub version: i32,
}

/// Requests a trial-time extension.
#[derive(Debug, Clone, PartialEq)]
pub struct ExtendTrial {
    pub user_id: u64,
    pub request_ticket: String,
    pub ticket_engine: i32,
}

/// The outcome of a trial-time extension, with retry guidance. Fields the
/// server omits take the documented defaults below.
#[derive(Debug, Clone, PartialEq)]
pub struct ExtendTrialResponse {
    pub code: i32,
    pub total_time_remaining: i32,
    pub time_granted: i32,
    pub response_ticket: String,
    pub retry_count: i32,
    pub retry_after_fail_sec: i32,
    pub extend_before_expire_sec: i32,
    pub sleep_before_nuke_sec: i32,
}

impl ExtendTrialResponse {
    /// Default number of retries when the server omits the field.
    pub fn default_retry_count() -> (r: i32)
        ensures
            r == 5,
    {
        5i32
    }

    /// Default pause after a failed extension, in seconds.
    pub fn default_retry_after_fail_sec() -> (r: i32)
        ensures
            r == 10,
    {
        10i32
    }

    /// Default lead time before expiry at which to extend, in seconds.
    pub fn default_extend_before_expire_sec() -> (r: i32)
        ensures
            r == 60,
    {
        60i32
    }

    /// Default grace period before the trial is cut off, in seconds.
    pub fn default_sleep_before_nuke_sec() -> (r: i32)
        ensures
            r == 20,
    {
        20i32
    }
}

/// Queries the entitlements of a user.
#[derive(Debug, Clone, PartialEq)]
pub struct QueryEntitlements {
    pub user_id: u64,
    pub offer_id: String,
    pub item_id: String,
    pub group: String,
    pub include_child_groups: bool,
    pub include_expired_trial_dlc: bool,
    pub filter_offers: Vec<String>,
    pub filter_items: Vec<String>,
    pub filter_groups: Vec<String>,
}

/// The entitlements matching a query.
#[derive(Debug, Clone, PartialEq)]
pub struct QueryEntitlementsResponse {
    pub entitlements: Vec<Entitlement>,
}

/// Queries the entitlements of a manifest.
#[derive(Debug, Clone, PartialEq)]
pub struct QueryManifest {
    pub user_id: u64,
    pub manifest: String,
}

/// The entitlements of the queried manifest.
#[derive(Debug, Clone, PartialEq)]
pub struct QueryManifestResponse {
    pub entitlements: Vec<Entitlement>,
}

} // verus!
