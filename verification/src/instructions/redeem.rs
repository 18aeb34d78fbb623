//! Redeem: burn shares and pay native value out of escrow 1:1.
//!
//! The share mint must be checked against its derivation before anything
//! else: without that check a caller could present an arbitrary mint and
//! burn self-controlled counterfeit tokens while being credited real value.
//! Settlement then moves the vault authority's and the redeemer's native
//! balances directly, guarded by checked subtraction and addition.
use crate::errors::{PrimitiveFailure, VaultError};
use crate::ledger::{AccountRecord, MintRecord, TokenAccountRecord};
use crate::payload::{le_u64_of, parse_amount, parse_amount_spec};
use crate::{pubkey_eq, Pubkey};
use vstd::prelude::*;
use vstd::slice::slice_index_get;

verus! {

/// The opcode byte that selects redeem.
pub const DISCRIMINATOR: u8 = 2;

/// The validated account list for redeem, by position.
#[derive(Clone, Copy, Debug, PartialEq, Eq)]
pub struct RedeemAccounts {
    /// The signer redeeming shares.
    pub redeemer: Pubkey,
    /// The share mint, derived from the seed `"mint"`.
    pub mint: Pubkey,
    /// The redeemer's holder share account, derived per the
    /// associated-account convention from (redeemer, token service, mint).
    pub mint_ata: Pubkey,
    /// The vault authority account, derived from the seed `"global"`.
    pub global_pda: Pubkey,
    /// The fungible-token service.
    pub token_program: Pubkey,
    /// The value-transfer and account-creation service.
    pub system_program: Pubkey,
}

/// The decoded redeem payload: a strictly positive amount.
#[derive(Clone, Copy, Debug, PartialEq, Eq)]
pub struct RedeemInstructionData {
    /// How many shares to burn, and how many native value units to pay out.
    pub amount: u64,
}

/// The validated redeem instruction.
#[derive(Clone, Copy, Debug, PartialEq, Eq)]
pub struct Redeem {
    /// The validated account list.
    pub accounts: RedeemAccounts,
    /// The decoded payload.
    pub instruction_data: RedeemInstructionData,
}

/// The ledger records redeem touches. Redeem never provisions accounts, so
/// the holder share account must already have contents.
#[derive(Clone, Copy, Debug, PartialEq, Eq)]
pub struct RedeemState {
    /// The redeemer's account record.
    pub redeemer: AccountRecord,
    /// The record at the vault authority address.
    pub global_pda: AccountRecord,
    /// The share mint, as established by initialize.
    pub mint: MintRecord,
    /// The token-level contents of the redeemer's holder share account.
    pub holder: TokenAccountRecord,
}

/// What validating the redeem account list yields: the six accounts by
/// position, after checking the share mint first, then the holder share
/// account, then the vault authority, against the addresses the caller
/// re-derived.
pub open spec fn redeem_accounts_spec(
    accounts: Seq<Pubkey>,
    expected_global: Pubkey,
    expected_mint: Pubkey,
    expected_ata: Pubkey,
) -> Result<RedeemAccounts, VaultError> {
    if accounts.len() != 6 {
        Err(VaultError::AccountShape)
    } else if accounts[1]@ != expected_mint@ {
        Err(VaultError::SeedMismatch)
    } else if accounts[2]@ != expected_ata@ {
        Err(VaultError::SeedMismatch)
    } else if accounts[3]@ != expected_global@ {
        Err(VaultError::SeedMismatch)
    } else {
        Ok(
            RedeemAccounts {
                redeemer: accounts[0],
                mint: accounts[1],
                mint_ata: accounts[2],
                global_pda: accounts[3],
                token_program: accounts[4],
                system_program: accounts[5],
            },
        )
    }
}

impl RedeemAccounts {
    /// Destructures the six-account list and rejects any deterministic
    /// account that differs from the address the caller re-derived. The
    /// share mint is checked before anything else: a foreign mint must
    /// fail before any burn or balance mutation can be reached.
    pub fn try_from(
        accounts: &[Pubkey],
        expected_global: &Pubkey,
        expected_mint: &Pubkey,
        expected_ata: &Pubkey,
    ) -> (r: Result<RedeemAccounts, VaultError>)
        ensures
            r == redeem_accounts_spec(accounts@, *expected_global, *expected_mint, *expected_ata),
            r is Ok <==> (accounts@.len() == 6 && accounts@[1]@ == expected_mint@
                && accounts@[2]@ == expected_ata@ && accounts@[3]@ == expected_global@),
            accounts@.len() != 6 ==> r == Err::<RedeemAccounts, VaultError>(
                VaultError::AccountShape,
            ),
            (accounts@.len() == 6 && accounts@[1]@ != expected_mint@) ==> r == Err::<
                RedeemAccounts,
                VaultError,
            >(VaultError::SeedMismatch),
    {
        if accounts.len() != 6 {
            return Err(VaultError::AccountShape);
        }
        let redeemer = *slice_index_get(accounts, 0);
        let mint = *slice_index_get(accounts, 1);
        let mint_ata = *slice_index_get(accounts, 2);
        let global_pda = *slice_index_get(accounts, 3);
        let token_program = *slice_index_get(accounts, 4);
        let system_program = *slice_index_get(accounts, 5);
        if !pubkey_eq(&mint, expected_mint) {
            return Err(VaultError::SeedMismatch);
        }
        if !pubkey_eq(&mint_ata, expected_ata) {
            return Err(VaultError::SeedMismatch);
        }
        if !pubkey_eq(&global_pda, expected_global) {
            return Err(VaultError::SeedMismatch);
        }
        Ok(
            RedeemAccounts {
                redeemer,
                mint,
                mint_ata,
                global_pda,
                token_program,
                system_program,
            },
        )
    }
}

impl RedeemInstructionData {
    /// Decodes the redeem payload: exactly 8 little-endian bytes encoding
    /// a nonzero amount; anything else is a malformed payload.
    pub fn try_from(data: &[u8]) -> (r: Result<RedeemInstructionData, VaultError>)
        ensures
            r is Ok <==> (data@.len() == 8 && le_u64_of(data@) != 0),
            r matches Ok(d) ==> d.amount == le_u64_of(data@) && d.amount > 0,
            r is Err ==> r == Err::<RedeemInstructionData, VaultError>(
                VaultError::MalformedPayload,
            ),
    {
        match parse_amount(data) {
            Ok(amount) => Ok(RedeemInstructionData { amount }),
            Err(e) => Err(e),
        }
    }
}

/// What validating the whole redeem instruction yields: the account list is
/// destructured and checked first, then the payload is decoded.
pub open spec fn redeem_try_from_spec(
    accounts: Seq<Pubkey>,
    data: Seq<u8>,
    expected_global: Pubkey,
    expected_mint: Pubkey,
    expected_ata: Pubkey,
) -> Result<Redeem, VaultError> {
    match redeem_accounts_spec(accounts, expected_global, expected_mint, expected_ata) {
        Err(e) => Err(e),
        Ok(acc) => match parse_amount_spec(data) {
            Err(e) => Err(e),
            Ok(amount) => Ok(
                Redeem { accounts: acc, instruction_data: RedeemInstructionData { amount } },
            ),
        },
    }
}

/// Whether the token service would accept the burn: the holder share
/// account counts the canonical mint, the redeemer owns it, and both the
/// holder balance and the supply cover the amount.
pub open spec fn burn_accepted(acc: RedeemAccounts, amount: u64, st: RedeemState) -> bool {
    &&& st.holder.mint@ == acc.mint@
    &&& st.holder.owner@ == acc.redeemer@
    &&& st.holder.amount >= amount
    &&& st.mint.supply >= amount
}

/// What redeem does to the ledger: burn `amount` shares from the holder
/// share account (refused by the token service unless the redeemer owns the
/// record and it counts the canonical mint), then settle by checked
/// subtraction from the vault authority's native balance and checked
/// addition to the redeemer's. The first refusal wins and leaves the
/// pre-state standing, the host having rolled every earlier step back.
pub open spec fn redeem_spec(acc: RedeemAccounts, amount: u64, st: RedeemState) -> Result<
    RedeemState,
    VaultError,
> {
    if st.holder.mint@ != acc.mint@ {
        Err(VaultError::UnderlyingPrimitive(PrimitiveFailure::MintMismatch))
    } else if st.holder.owner@ != acc.redeemer@ {
        Err(VaultError::UnderlyingPrimitive(PrimitiveFailure::OwnerMismatch))
    } else if st.holder.amount < amount {
        Err(VaultError::UnderlyingPrimitive(PrimitiveFailure::InsufficientFunds))
    } else if st.mint.supply < amount {
        Err(VaultError::UnderlyingPrimitive(PrimitiveFailure::BalanceOverflow))
    } else if st.global_pda.lamports < amount {
        Err(VaultError::Arithmetic)
    } else if st.redeemer.lamports + amount > u64::MAX {
        Err(VaultError::Arithmetic)
    } else {
        Ok(
            RedeemState {
                redeemer: AccountRecord {
                    lamports: (st.redeemer.lamports + amount) as u64,
                    ..st.redeemer
                },
                global_pda: AccountRecord {
                    lamports: (st.global_pda.lamports - amount) as u64,
                    ..st.global_pda
                },
                mint: MintRecord { supply: (st.mint.supply - amount) as u64, ..st.mint },
                holder: TokenAccountRecord {
                    amount: (st.holder.amount - amount) as u64,
                    ..st.holder
                },
            },
        )
    }
}

impl Redeem {
    /// Validates the account list, then decodes the payload.
    pub fn try_from(
        accounts: &[Pubkey],
        data: &[u8],
        expected_global: &Pubkey,
        expected_mint: &Pubkey,
        expected_ata: &Pubkey,
    ) -> (r: Result<Redeem, VaultError>)
        ensures
            r == redeem_try_from_spec(
                accounts@,
                data@,
                *expected_global,
                *expected_mint,
                *expected_ata,
            ),
            r is Ok <==> (accounts@.len() == 6 && accounts@[1]@ == expected_mint@
                && accounts@[2]@ == expected_ata@ && accounts@[3]@ == expected_global@
                && data@.len() == 8 && le_u64_of(data@) != 0),
            r matches Ok(ix) ==> ix.instruction_data.amount == le_u64_of(data@)
                && ix.instruction_data.amount > 0,
    {
        let acc = match RedeemAccounts::try_from(accounts, expected_global, expected_mint,
            expected_ata) {
            Ok(a) => a,
            Err(e) => {
                return Err(e);
            },
        };
        let instruction_data = match RedeemInstructionData::try_from(data) {
            Ok(d) => d,
            Err(e) => {
                return Err(e);
            },
        };
        Ok(Redeem { accounts: acc, instruction_data })
    }

    /// Applies redeem to the pre-state snapshot.
    ///
    /// On success the holder share account's balance, the share supply and
    /// the vault authority's native balance each shrink by exactly the
    /// amount, the redeemer's native balance grows by it, and the
    /// settlement conserves the sum of the vault authority's and the
    /// redeemer's native balances. When the burn would be accepted but the
    /// vault authority's balance cannot cover the amount, the checked
    /// subtraction refuses and the arithmetic error is returned with
    /// nothing mutated.
    pub fn process(&self, st: RedeemState) -> (r: Result<RedeemState, VaultError>)
        ensures
            r == redeem_spec(self.accounts, self.instruction_data.amount, st),
            r matches Ok(post) ==> ({
                let amount = self.instruction_data.amount;
                &&& post.holder.amount == st.holder.amount - amount
                &&& post.holder.owner == st.holder.owner
                &&& post.holder.mint == st.holder.mint
                &&& post.mint.supply == st.mint.supply - amount
                &&& post.mint.decimals == st.mint.decimals
                &&& post.mint.mint_authority == st.mint.mint_authority
                &&& post.mint.freeze_authority == st.mint.freeze_authority
                &&& post.global_pda.lamports == st.global_pda.lamports - amount
                &&& post.global_pda.owner == st.global_pda.owner
                &&& post.global_pda.data_len == st.global_pda.data_len
                &&& post.redeemer.lamports == st.redeemer.lamports + amount
                &&& post.redeemer.owner == st.redeemer.owner
                &&& post.redeemer.data_len == st.redeemer.data_len
                &&& post.global_pda.lamports + post.redeemer.lamports == st.global_pda.lamports
                    + st.redeemer.lamports
            }),
            (burn_accepted(self.accounts, self.instruction_data.amount, st)
                && st.global_pda.lamports < self.instruction_data.amount) ==> r == Err::<
                RedeemState,
                VaultError,
            >(VaultError::Arithmetic),
    {
        let amount = self.instruction_data.amount;
        if !pubkey_eq(&st.holder.mint, &self.accounts.mint) {
            return Err(VaultError::UnderlyingPrimitive(PrimitiveFailure::MintMismatch));
        }
        if !pubkey_eq(&st.holder.owner, &self.accounts.redeemer) {
            return Err(VaultError::UnderlyingPrimitive(PrimitiveFailure::OwnerMismatch));
        }
        if st.holder.amount < amount {
            return Err(VaultError::UnderlyingPrimitive(PrimitiveFailure::InsufficientFunds));
        }
        if st.mint.supply < amount {
            return Err(VaultError::UnderlyingPrimitive(PrimitiveFailure::BalanceOverflow));
        }
        if st.global_pda.lamports < amount {
            return Err(VaultError::Arithmetic);
        }
        if amount > u64::MAX - st.redeemer.lamports {
            return Err(VaultError::Arithmetic);
        }
        Ok(
            RedeemState {
                redeemer: AccountRecord { lamports: st.redeemer.lamports + amount, ..st.redeemer },
                global_pda: AccountRecord {
                    lamports: st.global_pda.lamports - amount,
                    ..st.global_pda
                },
                mint: MintRecord { supply: st.mint.supply - amount, ..st.mint },
                holder: TokenAccountRecord { amount: st.holder.amount - amount, ..st.holder },
            },
        )
    }
}

} // verus!
