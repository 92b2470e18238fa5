//! Commerce message shapes.

use vstd::prelude::*;

verus! {

/// Starts a checkout for a set of offers.
#[derive(Debug, Clone, PartialEq)]
pub struct Checkout {
    pub user_id: u64,
    pub currency: String,
    pub offers: Vec<String>,
}

/// Requests the wallet balance of a user.
#[derive(Debug, Clone, PartialEq)]
pub struct GetWalletBalance {
    pub user_id: u64,
    pub currency: String,
}

/// The wallet balance of the queried user.
#[derive(Debug, Clone, PartialEq)]
pub struct GetWalletBalanceResponse {
    pub balance: i64,
}

/// A completed purchase, pushed by the server.
#[derive(Debug, Clone, PartialEq)]
pub struct PurchaseEvent {
    pub manifest: String,
}

/// Queries the offers visible to a user.
#[derive(Debug, Clone, PartialEq)]
pub struct QueryOffers {
    pub user_id: u64,
    pub filter_categories: Vec<String>,
    pub filter_master_title_ids: Vec<String>,
    pub filter_offers: Vec<String>,
}

} // verus!
