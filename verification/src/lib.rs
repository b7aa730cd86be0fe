//! A session-scoped spending wallet: a custodial balance record that an
//! authority funds up front and that then pays recipients out of what is
//! left, without the authority signing for each payment.
//!
//! The four operations work on plain values. Each one either is refused and
//! leaves the record as it was, or moves the balance and hands back the
//! transfer that the custody service is to carry out and the event to
//! publish. Whoever runs them keeps the new record only together with that
//! transfer.

pub mod accounts;
pub mod address;
pub mod derivation;
pub mod error;
pub mod events;
pub mod instructions;
pub mod laws;
pub mod model;
pub mod state;
pub mod transfer;

pub use accounts::{CloseSession, ExecutePurchase, FundSession, InitializeSession};
pub use address::Address;
pub use error::ErrorCode;
pub use events::{FundsAdded, PurchaseExecuted, SessionClosed, SessionCreated};
pub use instructions::{close_session, execute_purchase, fund_session, initialize_session};
pub use state::SessionWallet;
pub use transfer::{Authorization, Transfer};
