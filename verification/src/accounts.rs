//! What each operation works on: the record of the session and the
//! addresses of the parties and holdings involved, as plain values.

use vstd::prelude::*;
use crate::address::Address;
use crate::state::SessionWallet;

verus! {

/// What opening a session works on.
#[derive(Clone, Debug, PartialEq, Eq)]
pub struct InitializeSession {
    /// The address at which the new record is kept.
    pub session_wallet: Address,
    /// The bump with which that address was derived.
    pub bump: u8,
    /// The holding the opening deposit comes from.
    pub treasury_token_account: Address,
    /// The holding of the session.
    pub session_token_account: Address,
    /// The caller; it becomes the authority of the session.
    pub authority: Address,
}

/// What a purchase works on.
#[derive(Clone, Debug, PartialEq, Eq)]
pub struct ExecutePurchase {
    /// The record of the session.
    pub session_wallet: SessionWallet,
    /// The holding of the session.
    pub session_token_account: Address,
    /// The holding of the party that is paid.
    pub service_provider_token_account: Address,
}

/// What a deposit works on.
#[derive(Clone, Debug, PartialEq, Eq)]
pub struct FundSession {
    /// The record of the session.
    pub session_wallet: SessionWallet,
    /// The holding the deposit comes from.
    pub funder_token_account: Address,
    /// The holding of the session.
    pub session_token_account: Address,
    /// The caller, who signs for the deposit. Any party may be one.
    pub funder: Address,
}

/// What closing a session works on.
#[derive(Clone, Debug, PartialEq, Eq)]
pub struct CloseSession {
    /// The record of the session.
    pub session_wallet: SessionWallet,
    /// The holding of the session.
    pub session_token_account: Address,
    /// The holding that what is left goes back to.
    pub treasury_token_account: Address,
    /// The caller.
    pub authority: Address,
}

} // verus!
