//! Requests to the custody service that holds the funds.

use vstd::prelude::*;
use crate::address::Address;

verus! {

/// What entitles a transfer to take funds out of its source holding.
#[derive(Clone, Debug, PartialEq, Eq)]
pub enum Authorization {
    /// The named party signs for the transfer itself.
    ExternalSignature(Address),
    /// The wallet signs through the seeds its address is derived from; only
    /// code that holds the session record can name them.
    DerivedCapability(Vec<Vec<u8>>),
}

/// An [`Authorization`] as a mathematical value.
pub enum AuthorizationView {
    ExternalSignature(Seq<u8>),
    DerivedCapability(Seq<Seq<u8>>),
}

impl View for Authorization {
    type V = AuthorizationView;

    open spec fn view(&self) -> AuthorizationView {
        match self {
            Authorization::ExternalSignature(signer) => AuthorizationView::ExternalSignature(
                signer@,
            ),
            Authorization::DerivedCapability(seeds) => AuthorizationView::DerivedCapability(
                seeds.deep_view(),
            ),
        }
    }
}

/// A request to the custody service: move `amount` from one holding to
/// another. The service carries it out whole or not at all.
#[derive(Clone, Debug, PartialEq, Eq)]
pub struct Transfer {
    /// The holding the funds leave.
    pub from: Address,
    /// The holding the funds reach.
    pub to: Address,
    /// How much is moved.
    pub amount: u64,
    /// Who lets the funds leave `from`.
    pub authorization: Authorization,
}

/// A [`Transfer`] as a mathematical value.
pub struct TransferView {
    pub from: Seq<u8>,
    pub to: Seq<u8>,
    pub amount: int,
    pub authorization: AuthorizationView,
}

impl View for Transfer {
    type V = TransferView;

    open spec fn view(&self) -> TransferView {
        TransferView {
            from: self.from@,
            to: self.to@,
            amount: self.amount as int,
            authorization: self.authorization@,
        }
    }
}

} // verus!
