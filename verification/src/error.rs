use vstd::prelude::*;

verus! {

/// Error kinds raised by the staking operations. Every failure leaves the
/// ledger record untouched.
#[derive(Clone, Copy, Debug, PartialEq, Eq, Structural)]
pub enum CustomError {
    /// The asset has no entry in the caller's ledger record.
    MintNotFound,
    /// The caller is not the record's established owner.
    Unauthorized,
    /// The supplied expected entry count differs from the record's count.
    IncorrectSize,
    /// The asset's collection symbol is not on the allow-list.
    IncorrectCollection,
}

} // verus!
