//! What each operation publishes once it has gone through.

use vstd::prelude::*;
use crate::address::Address;

verus! {

/// A session was opened.
#[derive(Clone, Debug, PartialEq, Eq)]
pub struct SessionCreated {
    pub session_id: String,
    /// The address of the new record.
    pub pda: Address,
    pub initial_funding: u64,
    pub timestamp: i64,
}

/// A purchase was paid out of a session.
#[derive(Clone, Debug, PartialEq, Eq)]
pub struct PurchaseExecuted {
    pub session_id: String,
    pub service_id: String,
    pub amount: u64,
    /// The balance once the purchase was paid.
    pub remaining_balance: u64,
    pub timestamp: i64,
}

/// A deposit was added to a session.
#[derive(Clone, Debug, PartialEq, Eq)]
pub struct FundsAdded {
    pub session_id: String,
    pub amount: u64,
    /// The balance once the deposit was added.
    pub new_balance: u64,
    pub timestamp: i64,
}

/// A session was closed.
#[derive(Clone, Debug, PartialEq, Eq)]
pub struct SessionClosed {
    pub session_id: String,
    /// What went back to the authority.
    pub refunded_amount: u64,
    /// The opening deposit less what went back.
    pub total_spent: u64,
    pub timestamp: i64,
}

} // verus!
