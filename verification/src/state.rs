//! The record of a session, and the seeds that tie it to its address.

use vstd::prelude::*;
use vstd::utf8::encode_utf8;
use vstd::string::StrSliceExecFns;
use crate::address::Address;

verus! {

/// Longest session identifier, in bytes, that a record can hold.
pub const MAX_SESSION_ID_LEN: usize = 64;

/// The tag that opens every seed list of a session wallet: the bytes of
/// the word "session".
pub const SESSION_SEED: [u8; 7] = [115, 101, 115, 115, 105, 111, 110];

/// The record of one session.
#[derive(Clone, Debug, PartialEq, Eq)]
pub struct SessionWallet {
    /// The party that may close the session and take back what is left.
    pub authority: Address,
    /// The identifier the record's address is derived from.
    pub session_id: String,
    /// When the session was opened.
    pub created_at: i64,
    /// When the balance last moved through a deposit or a purchase.
    pub last_activity: i64,
    /// What was deposited when the session was opened.
    pub initial_balance: u64,
    /// What can still be paid out.
    pub current_balance: u64,
    /// True from the opening of the session until it is closed.
    pub is_active: bool,
    /// The byte that completes the derivation of the record's address.
    pub bump: u8,
}

/// A session record as a mathematical value. Balances are plain integers
/// here, so that a balance below zero or beyond `u64::MAX` can be spoken of
/// and ruled out.
pub struct WalletState {
    pub authority: Seq<u8>,
    pub session_id: Seq<char>,
    pub created_at: int,
    pub last_activity: int,
    pub initial_balance: int,
    pub current_balance: int,
    pub is_active: bool,
    pub bump: u8,
}

impl WalletState {
    /// Both balances can be held in a `u64`.
    pub open spec fn in_range(self) -> bool {
        &&& 0 <= self.initial_balance <= u64::MAX
        &&& 0 <= self.current_balance <= u64::MAX
    }

    /// What holds of every record at every moment: the balances are in
    /// range, a closed session holds nothing, and the identifier fits.
    pub open spec fn wf(self) -> bool {
        &&& self.in_range()
        &&& !self.is_active ==> self.current_balance == 0
        &&& encode_utf8(self.session_id).len() <= MAX_SESSION_ID_LEN
    }
}

impl View for SessionWallet {
    type V = WalletState;

    open spec fn view(&self) -> WalletState {
        WalletState {
            authority: self.authority@,
            session_id: self.session_id@,
            created_at: self.created_at as int,
            last_activity: self.last_activity as int,
            initial_balance: self.initial_balance as int,
            current_balance: self.current_balance as int,
            is_active: self.is_active,
            bump: self.bump,
        }
    }
}

/// The seeds from which the address of the record of `session_id` is
/// searched: the tag, then the identifier's bytes.
pub open spec fn address_seeds(session_id: Seq<char>) -> Seq<Seq<u8>> {
    seq![SESSION_SEED@, encode_utf8(session_id)]
}

/// The seeds that stand for the wallet's own signature: the tag, the
/// identifier's bytes, then the bump.
pub open spec fn signer_seeds(session_id: Seq<char>, bump: u8) -> Seq<Seq<u8>> {
    address_seeds(session_id).push(seq![bump])
}

/// The tag and the bytes of `session_id`, each as a seed of its own.
pub fn address_seeds_of(session_id: &str) -> (seeds: Vec<Vec<u8>>)
    ensures
        seeds.deep_view() == address_seeds(session_id@),
{
    let mut tag: Vec<u8> = Vec::new();
    let mut i: usize = 0;
    while i < 7
        invariant
            i <= 7,
            tag@ == SESSION_SEED@.take(i as int),
        decreases 7 - i,
    {
        tag.push(SESSION_SEED[i]);
        assert(SESSION_SEED@.take(i + 1) =~= SESSION_SEED@.take(i as int).push(SESSION_SEED@[i as int]));
        i += 1;
    }
    assert(tag@ =~= SESSION_SEED@);
    let mut seeds: Vec<Vec<u8>> = Vec::new();
    seeds.push(tag);
    seeds.push(session_id.as_bytes_vec());
    assert(seeds.deep_view() =~~= address_seeds(session_id@));
    seeds
}

impl SessionWallet {
    /// Bytes set aside for one record where records are stored: the
    /// authority, the longest identifier, two times, two balances, the
    /// activity flag and the bump.
    pub const SIZE: usize = 32 + MAX_SESSION_ID_LEN + 8 + 8 + 8 + 8 + 1 + 1;

    /// The seeds that let this wallet authorize a transfer out of its own
    /// holding.
    pub fn signer_seeds(&self) -> (seeds: Vec<Vec<u8>>)
        ensures
            seeds.deep_view() == signer_seeds(self.session_id@, self.bump),
    {
        let mut seeds = address_seeds_of(self.session_id.as_str());
        let mut last: Vec<u8> = Vec::new();
        last.push(self.bump);
        seeds.push(last);
        assert(seeds.deep_view() =~~= signer_seeds(self.session_id@, self.bump));
        seeds
    }
}

} // verus!
