//! Deposit: move native value into escrow and mint shares 1:1.
//!
//! The depositor's holder share account is provisioned lazily: when its
//! record is still empty, it is created (rent funded by the depositor,
//! owned by the token service) and initialized for the depositor before the
//! value moves.
use crate::errors::{PrimitiveFailure, VaultError};
use crate::ledger::{
    is_fresh, AccountRecord, MintRecord, TokenAccountRecord, TOKEN_ACCOUNT_SPACE,
};
use crate::payload::{le_u64_of, parse_amount, parse_amount_spec};
use crate::{pubkey_eq, Pubkey};
use vstd::prelude::*;
use vstd::slice::slice_index_get;

verus! {

/// The opcode byte that selects deposit.
pub const DISCRIMINATOR: u8 = 1;

/// The validated account list for deposit, by position. The trailing eighth
/// slot of the supplied list is ignored.
#[derive(Clone, Copy, Debug, PartialEq, Eq)]
pub struct DepositAccounts {
    /// The signer depositing native value.
    pub depositor: Pubkey,
    /// The share mint, derived from the seed `"mint"`.
    pub mint: Pubkey,
    /// The depositor's holder share account, derived per the
    /// associated-account convention from (depositor, token service, mint).
    pub mint_ata: Pubkey,
    /// The vault authority account, derived from the seed `"global"`.
    pub global_pda: Pubkey,
    /// The fungible-token service.
    pub token_program: Pubkey,
    /// The value-transfer and account-creation service.
    pub system_program: Pubkey,
    /// The associated-account convention service.
    pub associated_token_program: Pubkey,
    /// The disambiguation byte of the vault authority derivation, presented
    /// back to the token service as the vault's signing proof.
    pub global_pda_bump: u8,
}

/// The decoded deposit payload: a strictly positive amount.
#[derive(Clone, Copy, Debug, PartialEq, Eq)]
pub struct DepositInstructionData {
    /// How many native value units to deposit, and how many shares to mint.
    pub amount: u64,
}

/// The validated deposit instruction.
#[derive(Clone, Copy, Debug, PartialEq, Eq)]
pub struct Deposit {
    /// The validated account list.
    pub accounts: DepositAccounts,
    /// The decoded payload.
    pub instruction_data: DepositInstructionData,
}

/// The ledger records deposit touches.
#[derive(Clone, Copy, Debug, PartialEq, Eq)]
pub struct DepositState {
    /// The depositor's account record.
    pub depositor: AccountRecord,
    /// The record at the vault authority address.
    pub global_pda: AccountRecord,
    /// The record at the holder share account's address.
    pub mint_ata: AccountRecord,
    /// The share mint, as established by initialize.
    pub mint: MintRecord,
    /// The token-level contents of the holder share account; `None` while
    /// its record is still empty.
    pub holder: Option<TokenAccountRecord>,
}

impl DepositState {
    /// The token-level view and the stored record agree: the holder share
    /// account has contents exactly when its record holds data.
    pub open spec fn wf(self) -> bool {
        self.holder is Some <==> self.mint_ata.data_len != 0
    }
}

/// What validating the deposit account list yields: the eight accounts by
/// position, after checking the vault authority, the share mint and the
/// holder share account against the addresses the caller re-derived.
pub open spec fn deposit_accounts_spec(
    accounts: Seq<Pubkey>,
    expected_global: Pubkey,
    global_bump: u8,
    expected_mint: Pubkey,
    expected_ata: Pubkey,
) -> Result<DepositAccounts, VaultError> {
    if accounts.len() != 8 {
        Err(VaultError::AccountShape)
    } else if accounts[3]@ != expected_global@ {
        Err(VaultError::SeedMismatch)
    } else if accounts[1]@ != expected_mint@ {
        Err(VaultError::SeedMismatch)
    } else if accounts[2]@ != expected_ata@ {
        Err(VaultError::SeedMismatch)
    } else {
        Ok(
            DepositAccounts {
                depositor: accounts[0],
                mint: accounts[1],
                mint_ata: accounts[2],
                global_pda: accounts[3],
                token_program: accounts[4],
                system_program: accounts[5],
                associated_token_program: accounts[6],
                global_pda_bump: global_bump,
            },
        )
    }
}

impl DepositAccounts {
    /// Destructures the eight-account list and rejects any of the three
    /// deterministic accounts that differs from the address the caller
    /// re-derived: the vault authority (seed `"global"`), the share mint
    /// (seed `"mint"`), and the depositor's holder share account (the
    /// associated-account derivation). Only the canonical holder account is
    /// accepted as a share account.
    pub fn try_from(
        accounts: &[Pubkey],
        expected_global: &Pubkey,
        global_bump: u8,
        expected_mint: &Pubkey,
        expected_ata: &Pubkey,
    ) -> (r: Result<DepositAccounts, VaultError>)
        ensures
            r == deposit_accounts_spec(
                accounts@,
                *expected_global,
                global_bump,
                *expected_mint,
                *expected_ata,
            ),
            r is Ok <==> (accounts@.len() == 8 && accounts@[3]@ == expected_global@
                && accounts@[1]@ == expected_mint@ && accounts@[2]@ == expected_ata@),
            accounts@.len() != 8 ==> r == Err::<DepositAccounts, VaultError>(
                VaultError::AccountShape,
            ),
            (accounts@.len() == 8 && accounts@[2]@ != expected_ata@) ==> r is Err,
    {
        if accounts.len() != 8 {
            return Err(VaultError::AccountShape);
        }
        let depositor = *slice_index_get(accounts, 0);
        let mint = *slice_index_get(accounts, 1);
        let mint_ata = *slice_index_get(accounts, 2);
        let global_pda = *slice_index_get(accounts, 3);
        let token_program = *slice_index_get(accounts, 4);
        let system_program = *slice_index_get(accounts, 5);
        let associated_token_program = *slice_index_get(accounts, 6);
        if !pubkey_eq(&global_pda, expected_global) {
            return Err(VaultError::SeedMismatch);
        }
        if !pubkey_eq(&mint, expected_mint) {
            return Err(VaultError::SeedMismatch);
        }
        if !pubkey_eq(&mint_ata, expected_ata) {
            return Err(VaultError::SeedMismatch);
        }
        Ok(
            DepositAccounts {
                depositor,
                mint,
                mint_ata,
                global_pda,
                token_program,
                system_program,
                associated_token_program,
                global_pda_bump: global_bump,
            },
        )
    }
}

impl DepositInstructionData {
    /// Decodes the deposit payload: exactly 8 little-endian bytes encoding
    /// a nonzero amount; anything else is a malformed payload.
    pub fn try_from(data: &[u8]) -> (r: Result<DepositInstructionData, VaultError>)
        ensures
            r is Ok <==> (data@.len() == 8 && le_u64_of(data@) != 0),
            r matches Ok(d) ==> d.amount == le_u64_of(data@) && d.amount > 0,
            r is Err ==> r == Err::<DepositInstructionData, VaultError>(
                VaultError::MalformedPayload,
            ),
    {
        match parse_amount(data) {
            Ok(amount) => Ok(DepositInstructionData { amount }),
            Err(e) => Err(e),
        }
    }
}

/// What validating the whole deposit instruction yields: the account list
/// is destructured and checked first, then the payload is decoded.
pub open spec fn deposit_try_from_spec(
    accounts: Seq<Pubkey>,
    data: Seq<u8>,
    expected_global: Pubkey,
    global_bump: u8,
    expected_mint: Pubkey,
    expected_ata: Pubkey,
) -> Result<Deposit, VaultError> {
    match deposit_accounts_spec(accounts, expected_global, global_bump, expected_mint,
        expected_ata) {
        Err(e) => Err(e),
        Ok(acc) => match parse_amount_spec(data) {
            Err(e) => Err(e),
            Ok(amount) => Ok(
                Deposit { accounts: acc, instruction_data: DepositInstructionData { amount } },
            ),
        },
    }
}

/// What deposit does to the ledger. When the holder share account's record
/// is still empty it is first created (rent funded by the depositor, owned
/// by the token service) and initialized for the depositor. Then `amount`
/// native units move from the depositor to the vault authority, and
/// `amount` shares are minted into the holder share account under the vault
/// authority's seed-derived signing proof. The first refusal wins and
/// leaves the pre-state standing, the host having rolled every earlier
/// step back.
pub open spec fn deposit_spec(
    acc: DepositAccounts,
    amount: u64,
    st: DepositState,
    ata_rent: u64,
) -> Result<DepositState, VaultError> {
    if st.mint_ata.data_len == 0 && !is_fresh(st.mint_ata) {
        Err(VaultError::UnderlyingPrimitive(PrimitiveFailure::AccountInUse))
    } else if st.mint_ata.data_len == 0 && st.depositor.lamports < ata_rent {
        Err(VaultError::UnderlyingPrimitive(PrimitiveFailure::InsufficientFunds))
    } else {
        let st1 = if st.mint_ata.data_len == 0 {
            DepositState {
                depositor: AccountRecord {
                    lamports: (st.depositor.lamports - ata_rent) as u64,
                    ..st.depositor
                },
                mint_ata: AccountRecord {
                    lamports: ata_rent,
                    owner: acc.token_program,
                    data_len: TOKEN_ACCOUNT_SPACE,
                },
                holder: Some(TokenAccountRecord { owner: acc.depositor, mint: acc.mint, amount: 0 }),
                ..st
            }
        } else {
            st
        };
        if st1.depositor.lamports < amount {
            Err(VaultError::UnderlyingPrimitive(PrimitiveFailure::InsufficientFunds))
        } else if st1.global_pda.lamports + amount > u64::MAX {
            Err(VaultError::UnderlyingPrimitive(PrimitiveFailure::BalanceOverflow))
        } else {
            let st2 = DepositState {
                depositor: AccountRecord {
                    lamports: (st1.depositor.lamports - amount) as u64,
                    ..st1.depositor
                },
                global_pda: AccountRecord {
                    lamports: (st1.global_pda.lamports + amount) as u64,
                    ..st1.global_pda
                },
                ..st1
            };
            let h = st2.holder->Some_0;
            if h.mint@ != acc.mint@ {
                Err(VaultError::UnderlyingPrimitive(PrimitiveFailure::MintMismatch))
            } else if !(st2.mint.mint_authority matches Some(auth) && auth@ == acc.global_pda@) {
                Err(VaultError::UnderlyingPrimitive(PrimitiveFailure::AuthorityMismatch))
            } else if h.amount + amount > u64::MAX {
                Err(VaultError::UnderlyingPrimitive(PrimitiveFailure::BalanceOverflow))
            } else if st2.mint.supply + amount > u64::MAX {
                Err(VaultError::UnderlyingPrimitive(PrimitiveFailure::BalanceOverflow))
            } else {
                Ok(
                    DepositState {
                        holder: Some(
                            TokenAccountRecord { amount: (h.amount + amount) as u64, ..h },
                        ),
                        mint: MintRecord { supply: (st2.mint.supply + amount) as u64, ..st2.mint },
                        ..st2
                    },
                )
            }
        }
    }
}

impl Deposit {
    /// Validates the account list, then decodes the payload.
    pub fn try_from(
        accounts: &[Pubkey],
        data: &[u8],
        expected_global: &Pubkey,
        global_bump: u8,
        expected_mint: &Pubkey,
        expected_ata: &Pubkey,
    ) -> (r: Result<Deposit, VaultError>)
        ensures
            r == deposit_try_from_spec(
                accounts@,
                data@,
                *expected_global,
                global_bump,
                *expected_mint,
                *expected_ata,
            ),
            r is Ok <==> (accounts@.len() == 8 && accounts@[3]@ == expected_global@
                && accounts@[1]@ == expected_mint@ && accounts@[2]@ == expected_ata@
                && data@.len() == 8 && le_u64_of(data@) != 0),
            r matches Ok(ix) ==> ix.instruction_data.amount == le_u64_of(data@)
                && ix.instruction_data.amount > 0,
    {
        let acc = match DepositAccounts::try_from(
            accounts,
            expected_global,
            global_bump,
            expected_mint,
            expected_ata,
        ) {
            Ok(a) => a,
            Err(e) => {
                return Err(e);
            },
        };
        let instruction_data = match DepositInstructionData::try_from(data) {
            Ok(d) => d,
            Err(e) => {
                return Err(e);
            },
        };
        Ok(Deposit { accounts: acc, instruction_data })
    }

    /// Applies deposit to the pre-state snapshot.
    ///
    /// On success the holder share account's balance and the vault
    /// authority's native balance each grow by exactly the amount, the
    /// share supply grows in lockstep, and nothing else changes beyond the
    /// depositor paying the amount (plus the rent of the holder share
    /// account when this deposit had to create it).
    pub fn process(&self, st: DepositState, ata_rent: u64) -> (r: Result<
        DepositState,
        VaultError,
    >)
        requires
            st.wf(),
        ensures
            r == deposit_spec(self.accounts, self.instruction_data.amount, st, ata_rent),
            r matches Ok(post) ==> post.wf(),
            r matches Ok(post) ==> ({
                let amount = self.instruction_data.amount;
                let prior = if st.holder is Some {
                    st.holder->Some_0.amount as int
                } else {
                    0
                };
                &&& post.holder matches Some(h) && {
                    &&& h.amount == prior + amount
                    &&& st.holder matches Some(h0) ==> h.owner@ == h0.owner@ && h.mint@
                        == h0.mint@
                    &&& st.holder is None ==> h.owner@ == self.accounts.depositor@ && h.mint@
                        == self.accounts.mint@
                }
                &&& post.global_pda.lamports == st.global_pda.lamports + amount
                &&& post.global_pda.owner == st.global_pda.owner
                &&& post.global_pda.data_len == st.global_pda.data_len
                &&& post.mint.supply == st.mint.supply + amount
                &&& post.mint.decimals == st.mint.decimals
                &&& post.mint.mint_authority == st.mint.mint_authority
                &&& post.mint.freeze_authority == st.mint.freeze_authority
                &&& st.holder is Some ==> post.depositor.lamports == st.depositor.lamports
                    - amount && post.mint_ata == st.mint_ata
                &&& st.holder is None ==> post.depositor.lamports == st.depositor.lamports
                    - ata_rent - amount && post.mint_ata.lamports == ata_rent
                &&& post.depositor.owner == st.depositor.owner
                &&& post.depositor.data_len == st.depositor.data_len
            }),
    {
        let amount = self.instruction_data.amount;
        let mut st1 = st;
        if st.mint_ata.data_len == 0 {
            if !crate::ledger::account_is_fresh(&st.mint_ata) {
                return Err(VaultError::UnderlyingPrimitive(PrimitiveFailure::AccountInUse));
            }
            if st.depositor.lamports < ata_rent {
                return Err(VaultError::UnderlyingPrimitive(PrimitiveFailure::InsufficientFunds));
            }
            st1 = DepositState {
                depositor: AccountRecord {
                    lamports: st.depositor.lamports - ata_rent,
                    ..st.depositor
                },
                mint_ata: AccountRecord {
                    lamports: ata_rent,
                    owner: self.accounts.token_program,
                    data_len: TOKEN_ACCOUNT_SPACE,
                },
                holder: Some(
                    TokenAccountRecord {
                        owner: self.accounts.depositor,
                        mint: self.accounts.mint,
                        amount: 0,
                    },
                ),
                ..st
            };
        }
        if st1.depositor.lamports < amount {
            return Err(VaultError::UnderlyingPrimitive(PrimitiveFailure::InsufficientFunds));
        }
        if amount > u64::MAX - st1.global_pda.lamports {
            return Err(VaultError::UnderlyingPrimitive(PrimitiveFailure::BalanceOverflow));
        }
        let st2 = DepositState {
            depositor: AccountRecord { lamports: st1.depositor.lamports - amount, ..st1.depositor },
            global_pda: AccountRecord {
                lamports: st1.global_pda.lamports + amount,
                ..st1.global_pda
            },
            ..st1
        };
        let h = match st2.holder {
            Some(h) => h,
            // provisioning above and well-formedness leave no empty holder
            None => unreached(),
        };
        if !pubkey_eq(&h.mint, &self.accounts.mint) {
            return Err(VaultError::UnderlyingPrimitive(PrimitiveFailure::MintMismatch));
        }
        let authorized = match &st2.mint.mint_authority {
            Some(auth) => pubkey_eq(auth, &self.accounts.global_pda),
            None => false,
        };
        if !authorized {
            return Err(VaultError::UnderlyingPrimitive(PrimitiveFailure::AuthorityMismatch));
        }
        if amount > u64::MAX - h.amount {
            return Err(VaultError::UnderlyingPrimitive(PrimitiveFailure::BalanceOverflow));
        }
        if amount > u64::MAX - st2.mint.supply {
            return Err(VaultError::UnderlyingPrimitive(PrimitiveFailure::BalanceOverflow));
        }
        Ok(
            DepositState {
                holder: Some(TokenAccountRecord { amount: h.amount + amount, ..h }),
                mint: MintRecord { supply: st2.mint.supply + amount, ..st2.mint },
                ..st2
            },
        )
    }
}

} // verus!
