//! Why an instruction was rejected.
use vstd::prelude::*;

verus! {

/// The reasons an instruction is rejected. A rejected instruction changes
/// no account.
#[derive(Clone, Copy, Debug, PartialEq, Eq, Structural)]
pub enum WrapperError {
    /// The original asset is not the configured one.
    AssetMismatch,
    /// No bump seed yields a program address for one of the derivations.
    DerivationFailed,
    /// An account is not at the address its seeds derive.
    ConstraintSeeds,
    /// A token account holds another mint, has another owner, is not the
    /// holder's associated account, or is the same account as another one
    /// the instruction writes.
    ConstraintTokenAccount,
    /// The token service named is not the token service.
    IncorrectProgramId,
    /// The wrapper state or the wrapper mint already exists.
    AlreadyInitialized,
    /// The descriptive strings do not fit in the state record.
    CapacityExceeded,
    /// The source account holds fewer units than the amount.
    InsufficientFunds,
    /// A balance or a supply would exceed the largest `u64`.
    Overflow,
    /// The custody account or the wrapper supply cannot cover a release that
    /// the solvency invariant guarantees; this signals a defect.
    InvariantViolation,
}

} // verus!
