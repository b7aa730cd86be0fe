//! The four operations on a session wallet.

use vstd::prelude::*;
use vstd::utf8::encode_utf8;
use crate::accounts::{CloseSession, ExecutePurchase, FundSession, InitializeSession};
use crate::error::ErrorCode;
use crate::events::{FundsAdded, PurchaseExecuted, SessionClosed, SessionCreated};
use crate::model::{opened, Call};
use crate::state::{signer_seeds, SessionWallet, MAX_SESSION_ID_LEN};
use crate::transfer::{Authorization, AuthorizationView, Transfer, TransferView};

verus! {

/// Opens the session `session_id` for the caller that `ctx` names, with a
/// first deposit of `initial_funding`, at time `now`.
///
/// Hands back the new record, which names the caller as its authority and
/// holds `initial_funding`; the transfer that brings the deposit from the
/// treasury into the session's holding, which the caller signs for; and the
/// event to publish. The record is to be kept only together with that
/// transfer.
pub fn initialize_session(
    ctx: &InitializeSession,
    session_id: String,
    initial_funding: u64,
    now: i64,
) -> (done: (SessionWallet, Transfer, SessionCreated))
    requires
        encode_utf8(session_id@).len() <= MAX_SESSION_ID_LEN,
    ensures
        done.0@ == opened(ctx.authority@, session_id@, ctx.bump, initial_funding, now),
        done.0@.wf(),
        done.1@ == (TransferView {
            from: ctx.treasury_token_account@,
            to: ctx.session_token_account@,
            amount: initial_funding as int,
            authorization: AuthorizationView::ExternalSignature(ctx.authority@),
        }),
        done.2.session_id@ == session_id@,
        done.2.pda@ == ctx.session_wallet@,
        done.2.initial_funding == initial_funding,
        done.2.timestamp == now,
{
    let transfer = Transfer {
        from: ctx.treasury_token_account,
        to: ctx.session_token_account,
        amount: initial_funding,
        authorization: Authorization::ExternalSignature(ctx.authority),
    };
    let event = SessionCreated {
        session_id: session_id.clone(),
        pda: ctx.session_wallet,
        initial_funding,
        timestamp: now,
    };
    let wallet = SessionWallet {
        authority: ctx.authority,
        session_id,
        created_at: now,
        last_activity: now,
        initial_balance: initial_funding,
        current_balance: initial_funding,
        is_active: true,
        bump: ctx.bump,
    };
    (wallet, transfer, event)
}

/// Pays `amount` out of the session to the service provider, for the
/// service `service_id`, at time `now`.
///
/// Refused with `SessionClosed` on a closed session, and with
/// `InsufficientBalance` where the wallet holds less than `amount`; the
/// record then stays as it was. Otherwise the balance goes down by `amount`,
/// and the transfer to carry out and the event to publish are handed back.
/// The transfer leaves the session's holding on the wallet's own authority.
pub fn execute_purchase(
    ctx: &mut ExecutePurchase,
    amount: u64,
    service_id: String,
    now: i64,
) -> (done: Result<(Transfer, PurchaseExecuted), ErrorCode>)
    ensures
        match done {
            Ok(_) => old(ctx).session_wallet@.refusal(Call::Purchase { amount, now }) is None,
            Err(e) => old(ctx).session_wallet@.refusal(Call::Purchase { amount, now }) == Some(e)
                && *final(ctx) == *old(ctx),
        },
        final(ctx).session_wallet@ == old(ctx).session_wallet@.after(
            Call::Purchase { amount, now },
        ),
        old(ctx).session_wallet@.wf() ==> final(ctx).session_wallet@.wf(),
        final(ctx).session_token_account == old(ctx).session_token_account,
        final(ctx).service_provider_token_account == old(ctx).service_provider_token_account,
        done matches Ok((transfer, event)) ==> {
            &&& transfer@ == (TransferView {
                from: old(ctx).session_token_account@,
                to: old(ctx).service_provider_token_account@,
                amount: amount as int,
                authorization: AuthorizationView::DerivedCapability(
                    signer_seeds(old(ctx).session_wallet@.session_id, old(ctx).session_wallet@.bump),
                ),
            })
            &&& event.session_id@ == old(ctx).session_wallet@.session_id
            &&& event.service_id@ == service_id@
            &&& event.amount == amount
            &&& event.remaining_balance == old(ctx).session_wallet@.current_balance - amount
            &&& event.timestamp == now
        },
{
    if !ctx.session_wallet.is_active {
        return Err(ErrorCode::SessionClosed);
    }
    if ctx.session_wallet.current_balance < amount {
        return Err(ErrorCode::InsufficientBalance);
    }
    let remaining = match ctx.session_wallet.current_balance.checked_sub(amount) {
        Some(remaining) => remaining,
        None => {
            return Err(ErrorCode::Overflow);
        },
    };
    ctx.session_wallet.current_balance = remaining;
    ctx.session_wallet.last_activity = now;
    let transfer = Transfer {
        from: ctx.session_token_account,
        to: ctx.service_provider_token_account,
        amount,
        authorization: Authorization::DerivedCapability(ctx.session_wallet.signer_seeds()),
    };
    let event = PurchaseExecuted {
        session_id: ctx.session_wallet.session_id.clone(),
        service_id,
        amount,
        remaining_balance: remaining,
        timestamp: now,
    };
    Ok((transfer, event))
}

/// Adds a deposit of `amount` to the session, at time `now`. Whoever the
/// funder is, the deposit is taken.
///
/// Refused with `SessionClosed` on a closed session, and with `Overflow`
/// where the balance would pass `u64::MAX`; the record then stays as it was.
/// Otherwise the balance goes up by `amount`, and the transfer to carry out
/// and the event to publish are handed back. The transfer leaves the
/// funder's holding, and the funder signs for it.
pub fn fund_session(ctx: &mut FundSession, amount: u64, now: i64) -> (done: Result<
    (Transfer, FundsAdded),
    ErrorCode,
>)
    ensures
        match done {
            Ok(_) => old(ctx).session_wallet@.refusal(
                Call::Fund { funder: old(ctx).funder@, amount, now },
            ) is None,
            Err(e) => old(ctx).session_wallet@.refusal(
                Call::Fund { funder: old(ctx).funder@, amount, now },
            ) == Some(e) && *final(ctx) == *old(ctx),
        },
        final(ctx).session_wallet@ == old(ctx).session_wallet@.after(
            Call::Fund { funder: old(ctx).funder@, amount, now },
        ),
        old(ctx).session_wallet@.wf() ==> final(ctx).session_wallet@.wf(),
        final(ctx).funder_token_account == old(ctx).funder_token_account,
        final(ctx).session_token_account == old(ctx).session_token_account,
        final(ctx).funder == old(ctx).funder,
        done matches Ok((transfer, event)) ==> {
            &&& transfer@ == (TransferView {
                from: old(ctx).funder_token_account@,
                to: old(ctx).session_token_account@,
                amount: amount as int,
                authorization: AuthorizationView::ExternalSignature(old(ctx).funder@),
            })
            &&& event.session_id@ == old(ctx).session_wallet@.session_id
            &&& event.amount == amount
            &&& event.new_balance == old(ctx).session_wallet@.current_balance + amount
            &&& event.timestamp == now
        },
{
    if !ctx.session_wallet.is_active {
        return Err(ErrorCode::SessionClosed);
    }
    let new_balance = match ctx.session_wallet.current_balance.checked_add(amount) {
        Some(sum) => sum,
        None => {
            return Err(ErrorCode::Overflow);
        },
    };
    ctx.session_wallet.current_balance = new_balance;
    ctx.session_wallet.last_activity = now;
    let transfer = Transfer {
        from: ctx.funder_token_account,
        to: ctx.session_token_account,
        amount,
        authorization: Authorization::ExternalSignature(ctx.funder),
    };
    let event = FundsAdded {
        session_id: ctx.session_wallet.session_id.clone(),
        amount,
        new_balance,
        timestamp: now,
    };
    Ok((transfer, event))
}

/// Closes the session for the caller that `ctx` names and hands what is left
/// back to the authority's treasury, at time `now`.
///
/// Refused with `Unauthorized` where the caller is not the authority of the
/// record, then with `SessionClosed` on a closed session, then with
/// `Overflow` where the wallet holds more than the opening deposit (what was
/// spent is reported as the opening deposit less what is left, and that must
/// not wrap); the record then stays as it was. Otherwise the session is
/// closed for good with a balance of zero. A transfer is handed back only
/// where something is left; it leaves the session's holding on the wallet's
/// own authority. The time of the last activity stays as it was.
pub fn close_session(ctx: &mut CloseSession, now: i64) -> (done: Result<
    (Option<Transfer>, SessionClosed),
    ErrorCode,
>)
    ensures
        match done {
            Ok(_) => old(ctx).session_wallet@.refusal(Call::Close { caller: old(ctx).authority@ })
                is None,
            Err(e) => old(ctx).session_wallet@.refusal(Call::Close { caller: old(ctx).authority@ })
                == Some(e) && *final(ctx) == *old(ctx),
        },
        final(ctx).session_wallet@ == old(ctx).session_wallet@.after(
            Call::Close { caller: old(ctx).authority@ },
        ),
        old(ctx).session_wallet@.wf() ==> final(ctx).session_wallet@.wf(),
        final(ctx).session_token_account == old(ctx).session_token_account,
        final(ctx).treasury_token_account == old(ctx).treasury_token_account,
        final(ctx).authority == old(ctx).authority,
        done matches Ok((refund, event)) ==> {
            &&& refund is Some <==> old(ctx).session_wallet@.current_balance > 0
            &&& refund matches Some(transfer) ==> transfer@ == (TransferView {
                from: old(ctx).session_token_account@,
                to: old(ctx).treasury_token_account@,
                amount: old(ctx).session_wallet@.current_balance,
                authorization: AuthorizationView::DerivedCapability(
                    signer_seeds(old(ctx).session_wallet@.session_id, old(ctx).session_wallet@.bump),
                ),
            })
            &&& event.session_id@ == old(ctx).session_wallet@.session_id
            &&& event.refunded_amount == old(ctx).session_wallet@.current_balance
            &&& event.total_spent == old(ctx).session_wallet@.initial_balance - old(
                ctx,
            ).session_wallet@.current_balance
            &&& event.timestamp == now
        },
{
    if !ctx.authority.same_as(&ctx.session_wallet.authority) {
        return Err(ErrorCode::Unauthorized);
    }
    if !ctx.session_wallet.is_active {
        return Err(ErrorCode::SessionClosed);
    }
    let remaining = ctx.session_wallet.current_balance;
    let total_spent = match ctx.session_wallet.initial_balance.checked_sub(remaining) {
        Some(spent) => spent,
        None => {
            return Err(ErrorCode::Overflow);
        },
    };
    let refund = if remaining > 0 {
        Some(
            Transfer {
                from: ctx.session_token_account,
                to: ctx.treasury_token_account,
                amount: remaining,
                authorization: Authorization::DerivedCapability(ctx.session_wallet.signer_seeds()),
            },
        )
    } else {
        None
    };
    ctx.session_wallet.is_active = false;
    ctx.session_wallet.current_balance = 0;
    let event = SessionClosed {
        session_id: ctx.session_wallet.session_id.clone(),
        refunded_amount: remaining,
        total_spent,
        timestamp: now,
    };
    Ok((refund, event))
}

} // verus!
