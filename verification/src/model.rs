//! The session wallet as a state machine over mathematical values: which
//! calls a state refuses, and the state that a call leaves.

use vstd::prelude::*;
use crate::error::ErrorCode;
use crate::state::WalletState;

verus! {

/// One call on a session that exists: what is asked of it, and by whom.
pub enum Call {
    /// `funder` deposits `amount`.
    Fund { funder: Seq<u8>, amount: u64, now: i64 },
    /// `amount` is paid out to a recipient.
    Purchase { amount: u64, now: i64 },
    /// `caller` closes the session.
    Close { caller: Seq<u8> },
}

impl WalletState {
    /// Why `call` is refused in this state, if it is.
    ///
    /// Closing tests the caller before it looks at the session. It is
    /// refused with `Overflow` where the wallet holds more than the opening
    /// deposit: what was spent is reported as the opening deposit less what
    /// is left, and that must not wrap.
    pub open spec fn refusal(self, call: Call) -> Option<ErrorCode> {
        match call {
            Call::Fund { funder, amount, now } => {
                if !self.is_active {
                    Some(ErrorCode::SessionClosed)
                } else if self.current_balance + amount > u64::MAX {
                    Some(ErrorCode::Overflow)
                } else {
                    None
                }
            },
            Call::Purchase { amount, now } => {
                if !self.is_active {
                    Some(ErrorCode::SessionClosed)
                } else if self.current_balance < amount {
                    Some(ErrorCode::InsufficientBalance)
                } else {
                    None
                }
            },
            Call::Close { caller } => {
                if caller != self.authority {
                    Some(ErrorCode::Unauthorized)
                } else if !self.is_active {
                    Some(ErrorCode::SessionClosed)
                } else if self.current_balance > self.initial_balance {
                    Some(ErrorCode::Overflow)
                } else {
                    None
                }
            },
        }
    }

    /// The record once `call` has been made: as it was where the call is
    /// refused, else with the balance moved.
    pub open spec fn after(self, call: Call) -> WalletState {
        if self.refusal(call) is Some {
            self
        } else {
            match call {
                Call::Fund { funder, amount, now } => WalletState {
                    current_balance: self.current_balance + amount,
                    last_activity: now as int,
                    ..self
                },
                Call::Purchase { amount, now } => WalletState {
                    current_balance: self.current_balance - amount,
                    last_activity: now as int,
                    ..self
                },
                Call::Close { caller } => WalletState {
                    current_balance: 0,
                    is_active: false,
                    ..self
                },
            }
        }
    }
}

/// The record of a session just opened by `authority` with `funding`.
pub open spec fn opened(
    authority: Seq<u8>,
    session_id: Seq<char>,
    bump: u8,
    funding: u64,
    now: i64,
) -> WalletState {
    WalletState {
        authority,
        session_id,
        created_at: now as int,
        last_activity: now as int,
        initial_balance: funding as int,
        current_balance: funding as int,
        is_active: true,
        bump,
    }
}

} // verus!
