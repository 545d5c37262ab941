use vstd::prelude::*;

verus! {

/// Every way an operation of this library can be refused. Each aborts the
/// enclosing batch.
#[derive(Clone, Copy, Debug, PartialEq, Eq, Structural)]
pub enum HookError {
    /// The hook was invoked outside of a genuine transfer.
    NotInTransferContext,
    /// The transferring principal has no authorization record.
    NotWhitelisted,
    /// No operation stands at the position next to the current one.
    AdjacentOperationNotFound,
    /// The adjacent operation targets another program.
    UnexpectedProgram,
    /// The adjacent operation is not a checked transfer.
    UnexpectedOpcode,
    /// The adjacent transfer is authorized by another principal.
    SignerMismatch,
    /// The adjacent transfer moves another amount than the one declared.
    AmountMismatch,
    /// A credit would take the balance past `u64::MAX`.
    BalanceOverflow,
    /// A debit asks for more than the balance.
    InsufficientBalance,
    /// The administrator cannot pay for the registry's growth.
    InsufficientFunding,
    /// The signer is not the vault's administrator.
    Unauthorized,
    /// The vault singleton exists already.
    AlreadyInitialized,
    /// The registry would outgrow the largest account the runtime allows.
    StorageLimitExceeded,
}

} // verus!
