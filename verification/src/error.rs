//! The reasons for which an operation is refused.

use vstd::prelude::*;

verus! {

/// Why an operation on a session wallet was refused. A refused operation
/// leaves the record as it was.
#[derive(Clone, Copy, Debug, PartialEq, Eq, Structural)]
pub enum ErrorCode {
    /// The session has been closed; nothing more can be done with it.
    SessionClosed,
    /// A purchase asked for more than the wallet holds.
    InsufficientBalance,
    /// The arithmetic would leave the range of the balance.
    Overflow,
    /// The caller is not the authority that the record names.
    Unauthorized,
}

} // verus!
