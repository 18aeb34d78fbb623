//! The explicit ledger model.
//!
//! The host ledger is a key-value store of account records. An instruction
//! never reaches into ambient state: each transition is a pure function of a
//! pre-state snapshot of the few records it touches, and either returns the
//! post-state or an error, in which case the host discards every effect and
//! the pre-state stands.
use crate::Pubkey;
use vstd::prelude::*;

verus! {

/// The identity of the ledger's value-transfer and account-creation service,
/// and the owner-of-record of every account that no program has claimed yet.
pub const SYSTEM_PROGRAM_ID: Pubkey = [
    0, 0, 0, 0, 0, 0, 0, 0, 0, 0, 0, 0, 0, 0, 0, 0, 0, 0, 0, 0, 0, 0, 0, 0, 0, 0, 0, 0, 0, 0, 0,
    0,
];

/// Storage size of the vault authority account: it keeps no business data,
/// but one byte of payload keeps the record from ever looking empty.
pub const VAULT_AUTHORITY_SPACE: u64 = 1;

/// Storage size of a fungible-token mint record.
pub const MINT_SPACE: u64 = 82;

/// Storage size of a per-holder token-balance record.
pub const TOKEN_ACCOUNT_SPACE: u64 = 165;

/// One ledger account as the host stores it: native balance, owner-of-record
/// and payload length.
#[derive(Clone, Copy, Debug, PartialEq, Eq)]
pub struct AccountRecord {
    /// Balance in native value units.
    pub lamports: u64,
    /// The program that may mutate the record.
    pub owner: Pubkey,
    /// Length of the stored payload in bytes.
    pub data_len: u64,
}

/// The share mint as the token service tracks it.
#[derive(Clone, Copy, Debug, PartialEq, Eq)]
pub struct MintRecord {
    /// Decimal precision of the share token.
    pub decimals: u8,
    /// Circulating supply of shares.
    pub supply: u64,
    /// Who may mint; for this vault, the vault authority account.
    pub mint_authority: Option<Pubkey>,
    /// Who may freeze balances; absent for this vault.
    pub freeze_authority: Option<Pubkey>,
}

/// A holder's share-balance record as the token service tracks it.
#[derive(Clone, Copy, Debug, PartialEq, Eq)]
pub struct TokenAccountRecord {
    /// The holder the balance belongs to.
    pub owner: Pubkey,
    /// The mint the balance counts.
    pub mint: Pubkey,
    /// The share balance.
    pub amount: u64,
}

/// An address the account-creation primitive accepts as a target: never
/// funded, no data, still owned by the system service.
pub open spec fn is_fresh(a: AccountRecord) -> bool {
    a.lamports == 0 && a.data_len == 0 && a.owner@ == SYSTEM_PROGRAM_ID@
}

/// Runtime check for [`is_fresh`].
pub fn account_is_fresh(a: &AccountRecord) -> (r: bool)
    ensures
        r == is_fresh(*a),
{
    a.lamports == 0 && a.data_len == 0 && crate::pubkey_eq(&a.owner, &SYSTEM_PROGRAM_ID)
}

} // verus!
