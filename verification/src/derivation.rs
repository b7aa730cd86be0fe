//! Where the record of a session is kept: the address that the session's
//! identifier derives under the program that owns the record.

use vstd::prelude::*;
use vstd::utf8::encode_utf8;
use anchor_lang::prelude::Pubkey;
use crate::accounts::InitializeSession;
use crate::address::Address;
use crate::state::{address_seeds, address_seeds_of, signer_seeds, SessionWallet};

verus! {

/// Longest seed, in bytes, that an address can be derived from.
pub const MAX_SEED_LEN: usize = 32;

/// Most seeds that an address can be derived from.
pub const MAX_SEEDS: usize = 16;

/// The address that `seeds` derive under the program `program_id`, where
/// they derive one.
pub uninterp spec fn program_address(seeds: Seq<Seq<u8>>, program_id: Seq<u8>) -> Option<Seq<u8>>;

/// Whether one of `seeds` is longer than a seed may be.
pub open spec fn has_long_seed(seeds: Seq<Seq<u8>>) -> bool {
    exists|i: int| 0 <= i < seeds.len() && #[trigger] seeds[i].len() > MAX_SEED_LEN
}

/// Whether `seeds` followed by any bump above `bump` derive no address
/// under `program_id`.
pub open spec fn none_derives_above(seeds: Seq<Seq<u8>>, program_id: Seq<u8>, bump: int) -> bool {
    forall|b: u8| bump < b ==> program_address(#[trigger] seeds.push(seq![b]), program_id) is None
}

/// `Pubkey::create_program_address` of solana-program, which anchor-lang
/// hands on. Believed of it: what it returns depends on the seeds and the
/// program alone, and it derives no address from more than `MAX_SEEDS` seeds
/// or from a seed longer than `MAX_SEED_LEN`.
#[verifier::external_body]
fn create_program_address(seeds: &Vec<Vec<u8>>, program_id: &Address) -> (derived: Option<Address>)
    ensures
        match derived {
            Some(address) => program_address(seeds.deep_view(), program_id@) == Some(address@),
            None => program_address(seeds.deep_view(), program_id@) is None,
        },
        seeds.len() > MAX_SEEDS || has_long_seed(seeds.deep_view()) ==> derived is None,
{
    let slices: Vec<&[u8]> = seeds.iter().map(|seed| seed.as_slice()).collect();
    let program = Pubkey::new_from_array(program_id.bytes);
    Pubkey::create_program_address(&slices, &program).ok().map(
        |key| Address { bytes: key.to_bytes() },
    )
}

/// `Pubkey::try_find_program_address` of solana-program, which anchor-lang
/// hands on. Believed of it: it tries the bumps from 255 down to 1, each
/// as one more seed after `seeds`, and ends on the first with which
/// `create_program_address` derives an address; it finds none where none of
/// them derives one, so from `MAX_SEEDS` seeds or more and from a seed longer
/// than `MAX_SEED_LEN`.
#[verifier::external_body]
fn try_find_program_address(seeds: &Vec<Vec<u8>>, program_id: &Address) -> (found: Option<
    (Address, u8),
>)
    ensures
        match found {
            Some((address, bump)) => {
                &&& bump >= 1
                &&& program_address(seeds.deep_view().push(seq![bump]), program_id@) == Some(
                    address@,
                )
                &&& none_derives_above(seeds.deep_view(), program_id@, bump as int)
            },
            None => none_derives_above(seeds.deep_view(), program_id@, 0),
        },
        seeds.len() >= MAX_SEEDS || has_long_seed(seeds.deep_view()) ==> found is None,
{
    let slices: Vec<&[u8]> = seeds.iter().map(|seed| seed.as_slice()).collect();
    let program = Pubkey::new_from_array(program_id.bytes);
    Pubkey::try_find_program_address(&slices, &program).map(
        |(key, bump)| (Address { bytes: key.to_bytes() }, bump),
    )
}

impl InitializeSession {
    /// Searches where the record of `session_id` is kept under the program
    /// `program_id`, and gathers with it what opening that session works on.
    ///
    /// The bump is the largest, from 255 down to 1, with which the session's
    /// seeds derive an address, and the address is the one they derive with
    /// it: the one that the record derives again from its identifier and its
    /// bump. `None` where no bump derives an address; that is so of every
    /// identifier longer than `MAX_SEED_LEN` bytes.
    pub fn locate(
        program_id: &Address,
        session_id: &str,
        authority: Address,
        treasury_token_account: Address,
        session_token_account: Address,
    ) -> (located: Option<InitializeSession>)
        ensures
            match located {
                Some(ctx) => {
                    &&& ctx.bump >= 1
                    &&& program_address(signer_seeds(session_id@, ctx.bump), program_id@) == Some(
                        ctx.session_wallet@,
                    )
                    &&& none_derives_above(address_seeds(session_id@), program_id@, ctx.bump as int)
                    &&& ctx.authority == authority
                    &&& ctx.treasury_token_account == treasury_token_account
                    &&& ctx.session_token_account == session_token_account
                },
                None => none_derives_above(address_seeds(session_id@), program_id@, 0),
            },
            encode_utf8(session_id@).len() > MAX_SEED_LEN ==> located is None,
    {
        let seeds = address_seeds_of(session_id);
        proof {
            if encode_utf8(session_id@).len() > MAX_SEED_LEN {
                assert(seeds.deep_view()[1].len() > MAX_SEED_LEN);
            }
        }
        match try_find_program_address(&seeds, program_id) {
            Some((session_wallet, bump)) => Some(
                InitializeSession {
                    session_wallet,
                    bump,
                    treasury_token_account,
                    session_token_account,
                    authority,
                },
            ),
            None => None,
        }
    }
}

impl SessionWallet {
    /// Whether `address` is where this record is kept under the program
    /// `program_id`: the address that its identifier and its bump derive.
    pub fn is_at(&self, address: &Address, program_id: &Address) -> (yes: bool)
        ensures
            yes == (program_address(signer_seeds(self@.session_id, self@.bump), program_id@)
                == Some(address@)),
    {
        let seeds = self.signer_seeds();
        match create_program_address(&seeds, program_id) {
            Some(derived) => derived.same_as(address),
            None => false,
        }
    }
}

} // verus!
