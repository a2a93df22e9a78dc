//! The reasons for which an operation is rejected.

use vstd::prelude::*;

verus! {

/// Why an operation was rejected.  A rejected operation changes nothing.
#[derive(Clone, Copy, Debug, PartialEq, Eq, Structural)]
pub enum TigerTrustError {
    /// The score argument lies outside `0..=1000`.
    InvalidScore,
    /// The caller does not hold the role that the operation requires.
    Unauthorized,
    /// `initialize` targets an address that already holds a record.
    ProfileAlreadyExists,
    /// The operation targets an address that holds no record.
    ProfileNotFound,
    /// The supplied address or proof disagrees with the derivation for the owner.
    AddressMismatch,
    /// The stored bytes have the wrong length, an unknown header or an
    /// invalid flag byte.
    CorruptRecord,
    /// The stored tier ordinal names no tier.
    InvalidTier,
    /// A counter or accumulator would exceed its integer range.
    Overflow,
}

} // verus!
