//! The error taxonomy of the vault.
//!
//! Every error is fatal to the enclosing ledger transaction: nothing is
//! caught or retried inside the program, and the host discards all effects
//! of a failed transaction, so a transition that returns an error leaves the
//! pre-state standing.
use vstd::prelude::*;

verus! {

/// How a nested collaborator primitive (account creation, value transfer,
/// mint, burn) can refuse a request.
#[derive(Clone, Copy, Debug, PartialEq, Eq, Structural)]
pub enum PrimitiveFailure {
    /// Account creation aimed at an address that is already funded, already
    /// holds data, or is already owned by a program.
    AccountInUse,
    /// A transfer or burn asked for more than the paying record holds.
    InsufficientFunds,
    /// A token operation named a token account kept for a different mint.
    MintMismatch,
    /// A token operation was not authorized by the record's owner.
    OwnerMismatch,
    /// A mint operation was not authorized by the mint's authority.
    AuthorityMismatch,
    /// Mint initialization aimed at a mint that is already initialized.
    AlreadyInitialized,
    /// A credited balance or supply would leave the unsigned 64-bit range.
    BalanceOverflow,
}

/// Why an instruction was rejected.
#[derive(Clone, Copy, Debug, PartialEq, Eq, Structural)]
pub enum VaultError {
    /// The supplied account list has the wrong shape (wrong count).
    AccountShape,
    /// A supplied account's address does not equal its deterministic
    /// derivation.
    SeedMismatch,
    /// Wrong payload length, unknown opcode, or a zero amount.
    MalformedPayload,
    /// Checked add or sub failed during redeem settlement.
    Arithmetic,
    /// A nested collaborator call failed.
    UnderlyingPrimitive(PrimitiveFailure),
}

} // verus!
