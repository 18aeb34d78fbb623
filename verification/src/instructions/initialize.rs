//! One-shot setup of the vault authority account and the share mint.
//!
//! The vault authority account is the escrow: it holds the pooled native
//! value and signs for the program through its seed derivation. The share
//! mint is the fungible accounting token, minted and burned 1:1 with
//! deposits and redemptions.
use crate::errors::{PrimitiveFailure, VaultError};
use crate::ledger::{
    is_fresh, AccountRecord, MintRecord, MINT_SPACE, VAULT_AUTHORITY_SPACE,
};
use crate::{pubkey_eq, Pubkey};
use vstd::prelude::*;
use vstd::slice::slice_index_get;

verus! {

/// The opcode byte that selects initialize.
pub const DISCRIMINATOR: u8 = 0;

/// The validated account list for initialize, by position.
#[derive(Clone, Copy, Debug, PartialEq, Eq)]
pub struct InitializeAccounts {
    /// The signer funding the two rent deposits.
    pub initializer: Pubkey,
    /// The vault authority account, derived from the seed `"global"`.
    pub global_pda: Pubkey,
    /// The share mint, derived from the seed `"mint"`.
    pub mint: Pubkey,
    /// The value-transfer and account-creation service.
    pub system_program: Pubkey,
    /// The fungible-token service.
    pub token_program: Pubkey,
}

/// The validated initialize instruction.
#[derive(Clone, Copy, Debug, PartialEq, Eq)]
pub struct Initialize {
    /// The validated account list.
    pub accounts: InitializeAccounts,
}

/// The ledger records initialize touches.
#[derive(Clone, Copy, Debug, PartialEq, Eq)]
pub struct InitializeState {
    /// The initializer's account record.
    pub initializer: AccountRecord,
    /// The record at the vault authority address.
    pub global_pda: AccountRecord,
    /// The record at the share-mint address.
    pub mint_account: AccountRecord,
    /// The token-level mint descriptor; `None` until the mint is initialized.
    pub mint: Option<MintRecord>,
}

/// What validating the initialize account list yields: the five accounts by
/// position, after checking the vault authority and the share mint against
/// the addresses the caller re-derived.
pub open spec fn initialize_accounts_spec(
    accounts: Seq<Pubkey>,
    expected_global: Pubkey,
    expected_mint: Pubkey,
) -> Result<InitializeAccounts, VaultError> {
    if accounts.len() != 5 {
        Err(VaultError::AccountShape)
    } else if accounts[1]@ != expected_global@ {
        Err(VaultError::SeedMismatch)
    } else if accounts[2]@ != expected_mint@ {
        Err(VaultError::SeedMismatch)
    } else {
        Ok(
            InitializeAccounts {
                initializer: accounts[0],
                global_pda: accounts[1],
                mint: accounts[2],
                system_program: accounts[3],
                token_program: accounts[4],
            },
        )
    }
}

/// What validating the whole initialize instruction yields; initialize
/// carries no payload beyond the opcode.
pub open spec fn initialize_try_from_spec(
    accounts: Seq<Pubkey>,
    expected_global: Pubkey,
    expected_mint: Pubkey,
) -> Result<Initialize, VaultError> {
    match initialize_accounts_spec(accounts, expected_global, expected_mint) {
        Err(e) => Err(e),
        Ok(acc) => Ok(Initialize { accounts: acc }),
    }
}

impl InitializeAccounts {
    /// Destructures the five-account list and rejects either deterministic
    /// account when it differs from the address the caller re-derived from
    /// its seed (`"global"` for the vault authority, `"mint"` for the share
    /// mint) under this program's identity.
    pub fn try_from(
        accounts: &[Pubkey],
        expected_global: &Pubkey,
        expected_mint: &Pubkey,
    ) -> (r: Result<InitializeAccounts, VaultError>)
        ensures
            r == initialize_accounts_spec(accounts@, *expected_global, *expected_mint),
            r is Ok <==> (accounts@.len() == 5 && accounts@[1]@ == expected_global@
                && accounts@[2]@ == expected_mint@),
            r matches Ok(a) ==> {
                &&& a.initializer@ == accounts@[0]@
                &&& a.global_pda@ == accounts@[1]@
                &&& a.mint@ == accounts@[2]@
                &&& a.system_program@ == accounts@[3]@
                &&& a.token_program@ == accounts@[4]@
            },
            accounts@.len() != 5 ==> r == Err::<InitializeAccounts, VaultError>(
                VaultError::AccountShape,
            ),
            (accounts@.len() == 5 && (accounts@[1]@ != expected_global@
                || accounts@[2]@ != expected_mint@)) ==> r
                == Err::<InitializeAccounts, VaultError>(VaultError::SeedMismatch),
    {
        if accounts.len() != 5 {
            return Err(VaultError::AccountShape);
        }
        let initializer = *slice_index_get(accounts, 0);
        let global_pda = *slice_index_get(accounts, 1);
        let mint = *slice_index_get(accounts, 2);
        let system_program = *slice_index_get(accounts, 3);
        let token_program = *slice_index_get(accounts, 4);
        if !pubkey_eq(&global_pda, expected_global) {
            return Err(VaultError::SeedMismatch);
        }
        if !pubkey_eq(&mint, expected_mint) {
            return Err(VaultError::SeedMismatch);
        }
        Ok(InitializeAccounts { initializer, global_pda, mint, system_program, token_program })
    }
}

/// What initialize does to the ledger: create the vault authority account
/// (owner: this program), create the mint account (owner: the token
/// service), both rent-funded by the initializer, then initialize the mint
/// with 6 decimals, the vault authority as mint authority and no freeze
/// authority. The first refusal wins and leaves the pre-state standing.
pub open spec fn initialize_spec(
    acc: InitializeAccounts,
    program_id: Pubkey,
    st: InitializeState,
    vault_rent: u64,
    mint_rent: u64,
) -> Result<InitializeState, VaultError> {
    if !is_fresh(st.global_pda) {
        Err(VaultError::UnderlyingPrimitive(PrimitiveFailure::AccountInUse))
    } else if st.initializer.lamports < vault_rent {
        Err(VaultError::UnderlyingPrimitive(PrimitiveFailure::InsufficientFunds))
    } else if !is_fresh(st.mint_account) {
        Err(VaultError::UnderlyingPrimitive(PrimitiveFailure::AccountInUse))
    } else if st.initializer.lamports - vault_rent < mint_rent {
        Err(VaultError::UnderlyingPrimitive(PrimitiveFailure::InsufficientFunds))
    } else if st.mint is Some {
        Err(VaultError::UnderlyingPrimitive(PrimitiveFailure::AlreadyInitialized))
    } else {
        Ok(InitializeState {
            initializer: AccountRecord {
                lamports: (st.initializer.lamports - vault_rent - mint_rent) as u64,
                ..st.initializer
            },
            global_pda: AccountRecord {
                lamports: vault_rent,
                owner: program_id,
                data_len: VAULT_AUTHORITY_SPACE,
            },
            mint_account: AccountRecord {
                lamports: mint_rent,
                owner: acc.token_program,
                data_len: MINT_SPACE,
            },
            mint: Some(MintRecord {
                decimals: 6,
                supply: 0,
                mint_authority: Some(acc.global_pda),
                freeze_authority: None,
            }),
        })
    }
}

impl Initialize {
    /// Validates the account list; the payload carries nothing further.
    pub fn try_from(
        accounts: &[Pubkey],
        expected_global: &Pubkey,
        expected_mint: &Pubkey,
    ) -> (r: Result<Initialize, VaultError>)
        ensures
            r == initialize_try_from_spec(accounts@, *expected_global, *expected_mint),
            r is Ok <==> (accounts@.len() == 5 && accounts@[1]@ == expected_global@
                && accounts@[2]@ == expected_mint@),
            r matches Ok(ix) ==> {
                &&& ix.accounts.initializer@ == accounts@[0]@
                &&& ix.accounts.global_pda@ == accounts@[1]@
                &&& ix.accounts.mint@ == accounts@[2]@
                &&& ix.accounts.system_program@ == accounts@[3]@
                &&& ix.accounts.token_program@ == accounts@[4]@
            },
            accounts@.len() != 5 ==> r == Err::<Initialize, VaultError>(VaultError::AccountShape),
            (accounts@.len() == 5 && (accounts@[1]@ != expected_global@
                || accounts@[2]@ != expected_mint@)) ==> r == Err::<Initialize, VaultError>(
                VaultError::SeedMismatch,
            ),
    {
        let accounts = match InitializeAccounts::try_from(accounts, expected_global, expected_mint) {
            Ok(a) => a,
            Err(e) => {
                return Err(e);
            },
        };
        Ok(Initialize { accounts })
    }

    /// Applies initialize to the pre-state snapshot.
    ///
    /// On success the vault authority account and the share mint exist at
    /// their derived addresses, the mint carries 6 decimals, zero supply,
    /// the vault authority as mint authority and no freeze authority, and
    /// the initializer has paid exactly the two rent deposits.
    pub fn process(
        &self,
        program_id: &Pubkey,
        st: InitializeState,
        vault_rent: u64,
        mint_rent: u64,
    ) -> (r: Result<InitializeState, VaultError>)
        ensures
            r == initialize_spec(self.accounts, *program_id, st, vault_rent, mint_rent),
            r is Ok <==> (is_fresh(st.global_pda) && is_fresh(st.mint_account)
                && st.mint is None
                && st.initializer.lamports >= vault_rent + mint_rent),
            r matches Ok(post) ==> {
                &&& post.mint matches Some(m) && {
                    &&& m.decimals == 6
                    &&& m.supply == 0
                    &&& m.mint_authority matches Some(auth) && auth@ == self.accounts.global_pda@
                    &&& m.freeze_authority is None
                }
                &&& post.global_pda.owner@ == program_id@
                &&& post.global_pda.lamports == vault_rent
                &&& post.global_pda.data_len == VAULT_AUTHORITY_SPACE
                &&& post.mint_account.owner@ == self.accounts.token_program@
                &&& post.mint_account.lamports == mint_rent
                &&& post.mint_account.data_len == MINT_SPACE
                &&& post.initializer.lamports
                    == st.initializer.lamports - vault_rent - mint_rent
                &&& post.initializer.owner == st.initializer.owner
                &&& post.initializer.data_len == st.initializer.data_len
            },
    {
        if !crate::ledger::account_is_fresh(&st.global_pda) {
            return Err(VaultError::UnderlyingPrimitive(PrimitiveFailure::AccountInUse));
        }
        if st.initializer.lamports < vault_rent {
            return Err(VaultError::UnderlyingPrimitive(PrimitiveFailure::InsufficientFunds));
        }
        let after_vault = st.initializer.lamports - vault_rent;
        if !crate::ledger::account_is_fresh(&st.mint_account) {
            return Err(VaultError::UnderlyingPrimitive(PrimitiveFailure::AccountInUse));
        }
        if after_vault < mint_rent {
            return Err(VaultError::UnderlyingPrimitive(PrimitiveFailure::InsufficientFunds));
        }
        if st.mint.is_some() {
            return Err(VaultError::UnderlyingPrimitive(PrimitiveFailure::AlreadyInitialized));
        }
        Ok(InitializeState {
            initializer: AccountRecord { lamports: after_vault - mint_rent, ..st.initializer },
            global_pda: AccountRecord {
                lamports: vault_rent,
                owner: *program_id,
                data_len: VAULT_AUTHORITY_SPACE,
            },
            mint_account: AccountRecord {
                lamports: mint_rent,
                owner: self.accounts.token_program,
                data_len: MINT_SPACE,
            },
            mint: Some(MintRecord {
                decimals: 6,
                supply: 0,
                mint_authority: Some(self.accounts.global_pda),
                freeze_authority: None,
            }),
        })
    }
}

/// A second initialize on the same program identity fails: the first one
/// leaves the vault authority account funded, carrying data and owned by
/// this program, and the account-creation primitive refuses such a target,
/// whoever signs and whatever rent amounts the retry brings.
pub proof fn lemma_initialize_once(
    acc: InitializeAccounts,
    program_id: Pubkey,
    st: InitializeState,
    vault_rent: u64,
    mint_rent: u64,
    acc2: InitializeAccounts,
    program_id2: Pubkey,
    second_initializer: AccountRecord,
    vault_rent2: u64,
    mint_rent2: u64,
)
    requires
        initialize_spec(acc, program_id, st, vault_rent, mint_rent) is Ok,
    ensures
        ({
            let post = initialize_spec(acc, program_id, st, vault_rent, mint_rent)->Ok_0;
            initialize_spec(
                acc2,
                program_id2,
                InitializeState {
                    initializer: second_initializer,
                    global_pda: post.global_pda,
                    mint_account: post.mint_account,
                    mint: post.mint,
                },
                vault_rent2,
                mint_rent2,
            ) == Err::<InitializeState, VaultError>(
                VaultError::UnderlyingPrimitive(PrimitiveFailure::AccountInUse),
            )
        }),
{
}

} // verus!
