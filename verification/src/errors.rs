//! The error taxonomy shared by every handler.

use vstd::prelude::*;

verus! {

/// Why a handler refused to act. Every error is terminal for the invocation:
/// a failing handler leaves the system exactly as it found it.
#[derive(Clone, Copy, PartialEq, Eq, Structural, Debug)]
pub enum ErrorCode {
    /// A name was longer than 50 bytes.
    NameTooLong,
    /// A description was longer than 200 bytes.
    DescriptionTooLong,
    /// A price of zero was offered.
    InvalidPrice,
    /// A duration of zero days was offered.
    InvalidDuration,
    /// A purchase was attempted against a product flagged inactive.
    ProductInactive,
    /// The caller is not the authority or owner the record designates.
    Unauthorized,
    /// A referenced record is absent from the store.
    NotFound,
    /// A record already occupies the derived address.
    AlreadyExists,
    /// The payer's balance does not cover the transfer amount.
    InsufficientFunds,
    /// The payee's balance cannot take the transfer amount.
    BalanceOverflow,
}

} // verus!
