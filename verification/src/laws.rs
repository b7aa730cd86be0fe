//! What holds of a session wallet over any run of calls.

use vstd::prelude::*;
use crate::error::ErrorCode;
use crate::model::{opened, Call};
use crate::state::WalletState;

verus! {

/// The record once every call of `calls` has been made on `w`, in order.
pub open spec fn run(w: WalletState, calls: Seq<Call>) -> WalletState
    decreases calls.len(),
{
    if calls.len() == 0 {
        w
    } else {
        run(w, calls.drop_last()).after(calls.last())
    }
}

/// Whether the last call of `calls` goes through when the calls are made
/// on `w` in order.
pub open spec fn last_goes_through(w: WalletState, calls: Seq<Call>) -> bool
    recommends
        calls.len() > 0,
{
    run(w, calls.drop_last()).refusal(calls.last()) is None
}

/// The sum of the deposits that went through while `calls` were made on `w`.
pub open spec fn deposited(w: WalletState, calls: Seq<Call>) -> int
    decreases calls.len(),
{
    if calls.len() == 0 {
        0
    } else if let Call::Fund { funder, amount, now } = calls.last() {
        deposited(w, calls.drop_last()) + if last_goes_through(w, calls) {
            amount as int
        } else {
            0
        }
    } else {
        deposited(w, calls.drop_last())
    }
}

/// The sum of the purchases that went through while `calls` were made on `w`.
pub open spec fn purchased(w: WalletState, calls: Seq<Call>) -> int
    decreases calls.len(),
{
    if calls.len() == 0 {
        0
    } else if let Call::Purchase { amount, now } = calls.last() {
        purchased(w, calls.drop_last()) + if last_goes_through(w, calls) {
            amount as int
        } else {
            0
        }
    } else {
        purchased(w, calls.drop_last())
    }
}

/// What went back to the authority while `calls` were made on `w`: the
/// balance that the closing call found.
pub open spec fn refunded(w: WalletState, calls: Seq<Call>) -> int
    decreases calls.len(),
{
    if calls.len() == 0 {
        0
    } else if calls.last() is Close && last_goes_through(w, calls) {
        refunded(w, calls.drop_last()) + run(w, calls.drop_last()).current_balance
    } else {
        refunded(w, calls.drop_last())
    }
}

/// No call takes the balance below zero or beyond `u64::MAX`, and no call
/// breaks what holds of every record: after any calls, made in any order,
/// the record is as sound as it was before them.
pub proof fn balance_stays_in_range(w: WalletState, calls: Seq<Call>)
    ensures
        w.in_range() ==> run(w, calls).in_range(),
        w.wf() ==> run(w, calls).wf(),
    decreases calls.len(),
{
    if calls.len() > 0 {
        balance_stays_in_range(w, calls.drop_last());
    }
}

/// What names a session never changes: after any calls the record has the
/// authority, the identifier, the bump, the opening time and the opening
/// deposit that it had before them. And a session that is active after them
/// was active before them: no call opens a closed session again.
pub proof fn identity_is_fixed(w: WalletState, calls: Seq<Call>)
    ensures
        run(w, calls).authority == w.authority,
        run(w, calls).session_id == w.session_id,
        run(w, calls).bump == w.bump,
        run(w, calls).created_at == w.created_at,
        run(w, calls).initial_balance == w.initial_balance,
        run(w, calls).is_active ==> w.is_active,
    decreases calls.len(),
{
    if calls.len() > 0 {
        identity_is_fixed(w, calls.drop_last());
    }
}

/// No call makes or destroys value. After any calls on a session, what the
/// wallet holds and what went back to the authority are together what the
/// wallet held before them, plus the deposits, less the purchases. While
/// the session is active nothing has gone back.
pub proof fn conservation(w: WalletState, calls: Seq<Call>)
    ensures
        run(w, calls).current_balance + refunded(w, calls) == w.current_balance + deposited(
            w,
            calls,
        ) - purchased(w, calls),
        run(w, calls).is_active ==> refunded(w, calls) == 0,
    decreases calls.len(),
{
    if calls.len() > 0 {
        conservation(w, calls.drop_last());
    }
}

/// At every point of a session's life at which it is active, its balance is
/// the opening deposit, plus the deposits, less the purchases. Here `calls`
/// are the calls made since the session was opened, up to that point.
pub proof fn conservation_since_opening(
    authority: Seq<u8>,
    session_id: Seq<char>,
    bump: u8,
    funding: u64,
    now: i64,
    calls: Seq<Call>,
)
    ensures
        ({
            let first = opened(authority, session_id, bump, funding, now);
            let w = run(first, calls);
            w.is_active ==> w.current_balance == w.initial_balance + deposited(first, calls)
                - purchased(first, calls)
        }),
{
    conservation(opened(authority, session_id, bump, funding, now), calls);
    identity_is_fixed(opened(authority, session_id, bump, funding, now), calls);
}

/// A record that is closed and empty is left as it is by every call.
pub proof fn closed_record_is_fixed(w: WalletState, calls: Seq<Call>)
    requires
        !w.is_active,
        w.current_balance == 0,
    ensures
        run(w, calls) == w,
    decreases calls.len(),
{
    if calls.len() > 0 {
        closed_record_is_fixed(w, calls.drop_last());
    }
}

/// Closing is final. Once `closer` has closed the session, the balance is
/// zero and stays so whatever calls follow, and every further call is
/// refused with `SessionClosed`: each deposit, each purchase, and each
/// closing by the authority. (A closing by any other caller is refused as
/// unauthorized before the session is looked at.)
pub proof fn closing_is_final(w: WalletState, closer: Seq<u8>, calls: Seq<Call>, next: Call)
    requires
        w.refusal(Call::Close { caller: closer }) is None,
        next is Close ==> next->caller == w.authority,
    ensures
        ({
            let closed = w.after(Call::Close { caller: closer });
            &&& !closed.is_active
            &&& closed.current_balance == 0
            &&& run(closed, calls) == closed
            &&& run(closed, calls).refusal(next) == Some(ErrorCode::SessionClosed)
        }),
{
    closed_record_is_fixed(w.after(Call::Close { caller: closer }), calls);
}

/// Only the authority closes a session: closing is refused as unauthorized
/// exactly when the caller is another party, whatever state the session is
/// in.
pub proof fn closing_needs_the_authority(w: WalletState, caller: Seq<u8>)
    ensures
        w.refusal(Call::Close { caller }) == Some(ErrorCode::Unauthorized) <==> caller
            != w.authority,
        caller != w.authority ==> w.after(Call::Close { caller }) == w,
{
}

/// Anyone may make a deposit: whether a deposit is taken, and what the
/// record is after it, does not depend on who the funder is. One into an
/// active session that the balance has room for is taken.
pub proof fn deposits_are_open_to_all(
    w: WalletState,
    funder: Seq<u8>,
    other: Seq<u8>,
    amount: u64,
    now: i64,
)
    ensures
        w.refusal(Call::Fund { funder, amount, now }) == w.refusal(
            Call::Fund { funder: other, amount, now },
        ),
        w.after(Call::Fund { funder, amount, now }) == w.after(
            Call::Fund { funder: other, amount, now },
        ),
        w.is_active && w.current_balance + amount <= u64::MAX ==> w.refusal(
            Call::Fund { funder, amount, now },
        ) is None,
{
}

/// A deposit that would take the balance of a sound record beyond
/// `u64::MAX` is refused with `Overflow`, and the record stays as it was.
pub proof fn overflowing_deposit_is_refused(w: WalletState, funder: Seq<u8>, amount: u64, now: i64)
    requires
        w.wf(),
        w.current_balance + amount > u64::MAX,
    ensures
        w.refusal(Call::Fund { funder, amount, now }) == Some(ErrorCode::Overflow),
        w.after(Call::Fund { funder, amount, now }) == w,
{
}

} // verus!
