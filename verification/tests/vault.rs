//! End-to-end tests of the vault library: payload decoding, account
//! validation, dispatch, and the ledger transitions of the three
//! operations.
use vault::errors::{PrimitiveFailure, VaultError};
use vault::instructions::deposit::{Deposit, DepositAccounts, DepositInstructionData, DepositState};
use vault::instructions::initialize::{Initialize, InitializeAccounts, InitializeState};
use vault::instructions::redeem::{Redeem, RedeemAccounts, RedeemInstructionData, RedeemState};
use vault::ledger::{
    AccountRecord, MintRecord, TokenAccountRecord, MINT_SPACE, SYSTEM_PROGRAM_ID,
    TOKEN_ACCOUNT_SPACE, VAULT_AUTHORITY_SPACE,
};
use vault::{process_instruction, DerivedAddresses, Pubkey, VaultInstruction, ID};

fn key(n: u8) -> Pubkey {
    let mut k = [0u8; 32];
    k[0] = n;
    k[31] = n;
    k
}

fn fresh() -> AccountRecord {
    AccountRecord { lamports: 0, owner: SYSTEM_PROGRAM_ID, data_len: 0 }
}

fn funded(lamports: u64) -> AccountRecord {
    AccountRecord { lamports, owner: SYSTEM_PROGRAM_ID, data_len: 0 }
}

fn derived() -> DerivedAddresses {
    DerivedAddresses { global: key(10), global_bump: 254, mint: key(11), holder_share: key(12) }
}

fn init_accounts() -> Vec<Pubkey> {
    // [initializer, vault authority, share mint, system service, token service]
    vec![key(1), key(10), key(11), SYSTEM_PROGRAM_ID, key(20)]
}

fn deposit_accounts() -> Vec<Pubkey> {
    // [depositor, mint, holder share, vault authority, token, system, ata service, ignored]
    vec![key(2), key(11), key(12), key(10), key(20), SYSTEM_PROGRAM_ID, key(21), key(30)]
}

fn redeem_accounts() -> Vec<Pubkey> {
    // [redeemer, mint, holder share, vault authority, token, system]
    vec![key(2), key(11), key(12), key(10), key(20), SYSTEM_PROGRAM_ID]
}

fn initialized_mint() -> MintRecord {
    MintRecord { decimals: 6, supply: 0, mint_authority: Some(key(10)), freeze_authority: None }
}

#[test]
fn parse_deposit_amount_exact() {
    let data = [0x40u8, 0x42, 0x0F, 0, 0, 0, 0, 0];
    let d = DepositInstructionData::try_from(&data).unwrap();
    assert_eq!(d.amount, 1_000_000);
}

#[test]
fn parse_redeem_amount_exact() {
    let data = [0x20u8, 0xA1, 0x07, 0, 0, 0, 0, 0];
    let d = RedeemInstructionData::try_from(&data).unwrap();
    assert_eq!(d.amount, 500_000);
}

#[test]
fn parse_max_amount() {
    let data = [0xFFu8; 8];
    let d = DepositInstructionData::try_from(&data).unwrap();
    assert_eq!(d.amount, u64::MAX);
}

#[test]
fn parse_zero_amount_rejected() {
    let data = [0u8; 8];
    assert_eq!(DepositInstructionData::try_from(&data), Err(VaultError::MalformedPayload));
    assert_eq!(RedeemInstructionData::try_from(&data), Err(VaultError::MalformedPayload));
}

#[test]
fn parse_wrong_length_rejected() {
    let short = [1u8; 7];
    let long = [1u8; 9];
    assert_eq!(DepositInstructionData::try_from(&short), Err(VaultError::MalformedPayload));
    assert_eq!(RedeemInstructionData::try_from(&long), Err(VaultError::MalformedPayload));
}

#[test]
fn dispatch_empty_and_unknown_opcode_rejected() {
    let accounts = init_accounts();
    let d = derived();
    assert_eq!(process_instruction(&accounts, &[], &d), Err(VaultError::MalformedPayload));
    assert_eq!(process_instruction(&accounts, &[3], &d), Err(VaultError::MalformedPayload));
    assert_eq!(process_instruction(&accounts, &[255, 1, 2], &d), Err(VaultError::MalformedPayload));
}

#[test]
fn dispatch_routes_initialize() {
    let accounts = init_accounts();
    let r = process_instruction(&accounts, &[0], &derived()).unwrap();
    match r {
        VaultInstruction::Initialize(ix) => {
            assert_eq!(ix.accounts.global_pda, key(10));
            assert_eq!(ix.accounts.mint, key(11));
        }
        _ => panic!("routed to the wrong processor"),
    }
}

#[test]
fn dispatch_routes_deposit_with_payload() {
    let accounts = deposit_accounts();
    let mut data = vec![1u8];
    data.extend_from_slice(&[0x40, 0x42, 0x0F, 0, 0, 0, 0, 0]);
    let r = process_instruction(&accounts, &data, &derived()).unwrap();
    match r {
        VaultInstruction::Deposit(ix) => {
            assert_eq!(ix.instruction_data.amount, 1_000_000);
            assert_eq!(ix.accounts.depositor, key(2));
            assert_eq!(ix.accounts.global_pda_bump, 254);
        }
        _ => panic!("routed to the wrong processor"),
    }
}

#[test]
fn dispatch_routes_redeem_with_payload() {
    let accounts = redeem_accounts();
    let mut data = vec![2u8];
    data.extend_from_slice(&[0x20, 0xA1, 0x07, 0, 0, 0, 0, 0]);
    let r = process_instruction(&accounts, &data, &derived()).unwrap();
    match r {
        VaultInstruction::Redeem(ix) => {
            assert_eq!(ix.instruction_data.amount, 500_000);
            assert_eq!(ix.accounts.redeemer, key(2));
        }
        _ => panic!("routed to the wrong processor"),
    }
}

#[test]
fn deposit_accounts_validation_keeps_positions_and_bump() {
    let accounts = deposit_accounts();
    let a = DepositAccounts::try_from(&accounts, &key(10), 254, &key(11), &key(12)).unwrap();
    assert_eq!(a.depositor, key(2));
    assert_eq!(a.mint, key(11));
    assert_eq!(a.mint_ata, key(12));
    assert_eq!(a.global_pda, key(10));
    assert_eq!(a.token_program, key(20));
    assert_eq!(a.system_program, SYSTEM_PROGRAM_ID);
    assert_eq!(a.associated_token_program, key(21));
    assert_eq!(a.global_pda_bump, 254);
}

#[test]
fn redeem_accounts_validation_keeps_positions() {
    let accounts = redeem_accounts();
    let a = RedeemAccounts::try_from(&accounts, &key(10), &key(11), &key(12)).unwrap();
    assert_eq!(a.redeemer, key(2));
    assert_eq!(a.mint, key(11));
    assert_eq!(a.mint_ata, key(12));
    assert_eq!(a.global_pda, key(10));
    let short = vec![key(2), key(11), key(12)];
    assert_eq!(
        RedeemAccounts::try_from(&short, &key(10), &key(11), &key(12)),
        Err(VaultError::AccountShape)
    );
}

#[test]
fn initialize_accounts_wrong_count_rejected() {
    let accounts = vec![key(1), key(10), key(11), SYSTEM_PROGRAM_ID];
    let r = InitializeAccounts::try_from(&accounts, &key(10), &key(11));
    assert_eq!(r, Err(VaultError::AccountShape));
}

#[test]
fn initialize_accounts_seed_mismatch_rejected() {
    let mut accounts = init_accounts();
    accounts[1] = key(99);
    let r = InitializeAccounts::try_from(&accounts, &key(10), &key(11));
    assert_eq!(r, Err(VaultError::SeedMismatch));
    let mut accounts2 = init_accounts();
    accounts2[2] = key(99);
    let r2 = InitializeAccounts::try_from(&accounts2, &key(10), &key(11));
    assert_eq!(r2, Err(VaultError::SeedMismatch));
}

fn run_initialize(initializer_lamports: u64) -> InitializeState {
    let accounts = init_accounts();
    let ix = Initialize::try_from(&accounts, &key(10), &key(11)).unwrap();
    let st = InitializeState {
        initializer: funded(initializer_lamports),
        global_pda: fresh(),
        mint_account: fresh(),
        mint: None,
    };
    ix.process(&ID, st, 900, 1_500).unwrap()
}

#[test]
fn initialize_establishes_vault_and_mint() {
    let post = run_initialize(10_000);
    let mint = post.mint.unwrap();
    assert_eq!(mint.decimals, 6);
    assert_eq!(mint.supply, 0);
    assert_eq!(mint.mint_authority, Some(key(10)));
    assert_eq!(mint.freeze_authority, None);
    assert_eq!(post.global_pda.owner, ID);
    assert_eq!(post.global_pda.lamports, 900);
    assert_eq!(post.global_pda.data_len, VAULT_AUTHORITY_SPACE);
    assert_eq!(post.mint_account.owner, key(20));
    assert_eq!(post.mint_account.lamports, 1_500);
    assert_eq!(post.mint_account.data_len, MINT_SPACE);
    assert_eq!(post.initializer.lamports, 10_000 - 900 - 1_500);
}

#[test]
fn initialize_second_attempt_fails() {
    let post = run_initialize(10_000);
    let accounts = init_accounts();
    let ix = Initialize::try_from(&accounts, &key(10), &key(11)).unwrap();
    let again = InitializeState {
        initializer: funded(5_000),
        global_pda: post.global_pda,
        mint_account: post.mint_account,
        mint: post.mint,
    };
    assert_eq!(
        ix.process(&ID, again, 900, 1_500),
        Err(VaultError::UnderlyingPrimitive(PrimitiveFailure::AccountInUse))
    );
}

#[test]
fn initialize_underfunded_initializer_fails() {
    let accounts = init_accounts();
    let ix = Initialize::try_from(&accounts, &key(10), &key(11)).unwrap();
    let st = InitializeState {
        initializer: funded(1_000),
        global_pda: fresh(),
        mint_account: fresh(),
        mint: None,
    };
    assert_eq!(
        ix.process(&ID, st, 900, 1_500),
        Err(VaultError::UnderlyingPrimitive(PrimitiveFailure::InsufficientFunds))
    );
}

fn deposit_ix(amount: u64) -> Deposit {
    let accounts = deposit_accounts();
    let data = amount.to_le_bytes();
    Deposit::try_from(&accounts, &data, &key(10), 254, &key(11), &key(12)).unwrap()
}

fn redeem_ix(amount: u64) -> Redeem {
    let accounts = redeem_accounts();
    let data = amount.to_le_bytes();
    Redeem::try_from(&accounts, &data, &key(10), &key(11), &key(12)).unwrap()
}

#[test]
fn deposit_existing_holder_moves_value_and_mints() {
    let ix = deposit_ix(700);
    let st = DepositState {
        depositor: funded(5_000),
        global_pda: AccountRecord { lamports: 900, owner: ID, data_len: 1 },
        mint_ata: AccountRecord { lamports: 2_000, owner: key(20), data_len: TOKEN_ACCOUNT_SPACE },
        mint: MintRecord { supply: 300, ..initialized_mint() },
        holder: Some(TokenAccountRecord { owner: key(2), mint: key(11), amount: 300 }),
    };
    let post = ix.process(st, 2_000).unwrap();
    assert_eq!(post.holder.unwrap().amount, 1_000);
    assert_eq!(post.global_pda.lamports, 1_600);
    assert_eq!(post.depositor.lamports, 4_300);
    assert_eq!(post.mint.supply, 1_000);
    // nothing else moved
    assert_eq!(post.mint_ata, st.mint_ata);
    assert_eq!(post.mint.decimals, 6);
    assert_eq!(post.mint.mint_authority, Some(key(10)));
}

#[test]
fn deposit_fresh_holder_is_provisioned() {
    let ix = deposit_ix(1_000_000);
    let st = DepositState {
        depositor: funded(2_000_000),
        global_pda: AccountRecord { lamports: 900, owner: ID, data_len: 1 },
        mint_ata: fresh(),
        mint: initialized_mint(),
        holder: None,
    };
    let post = ix.process(st, 2_000).unwrap();
    let holder = post.holder.unwrap();
    assert_eq!(holder.amount, 1_000_000);
    assert_eq!(holder.owner, key(2));
    assert_eq!(holder.mint, key(11));
    assert_eq!(post.mint_ata.owner, key(20));
    assert_eq!(post.mint_ata.lamports, 2_000);
    assert_eq!(post.mint_ata.data_len, TOKEN_ACCOUNT_SPACE);
    assert_eq!(post.global_pda.lamports, 900 + 1_000_000);
    assert_eq!(post.depositor.lamports, 2_000_000 - 2_000 - 1_000_000);
    assert_eq!(post.mint.supply, 1_000_000);
}

#[test]
fn deposit_non_canonical_holder_account_rejected() {
    let mut accounts = deposit_accounts();
    accounts[2] = key(99);
    let data = 5u64.to_le_bytes();
    let r = Deposit::try_from(&accounts, &data, &key(10), 254, &key(11), &key(12));
    assert_eq!(r, Err(VaultError::SeedMismatch));
}

#[test]
fn deposit_zero_amount_rejected_before_any_step() {
    let accounts = deposit_accounts();
    let data = 0u64.to_le_bytes();
    let r = Deposit::try_from(&accounts, &data, &key(10), 254, &key(11), &key(12));
    assert_eq!(r, Err(VaultError::MalformedPayload));
}

#[test]
fn deposit_underfunded_depositor_fails() {
    let ix = deposit_ix(700);
    let st = DepositState {
        depositor: funded(600),
        global_pda: AccountRecord { lamports: 900, owner: ID, data_len: 1 },
        mint_ata: AccountRecord { lamports: 2_000, owner: key(20), data_len: TOKEN_ACCOUNT_SPACE },
        mint: initialized_mint(),
        holder: Some(TokenAccountRecord { owner: key(2), mint: key(11), amount: 0 }),
    };
    assert_eq!(
        ix.process(st, 2_000),
        Err(VaultError::UnderlyingPrimitive(PrimitiveFailure::InsufficientFunds))
    );
}

#[test]
fn deposit_with_unauthorized_mint_rejected() {
    let ix = deposit_ix(700);
    let st = DepositState {
        depositor: funded(5_000),
        global_pda: AccountRecord { lamports: 900, owner: ID, data_len: 1 },
        mint_ata: AccountRecord { lamports: 2_000, owner: key(20), data_len: TOKEN_ACCOUNT_SPACE },
        // a mint whose authority is not the vault authority
        mint: MintRecord { mint_authority: Some(key(77)), ..initialized_mint() },
        holder: Some(TokenAccountRecord { owner: key(2), mint: key(11), amount: 0 }),
    };
    assert_eq!(
        ix.process(st, 2_000),
        Err(VaultError::UnderlyingPrimitive(PrimitiveFailure::AuthorityMismatch))
    );
}

#[test]
fn deposit_overflowing_vault_balance_rejected() {
    let ix = deposit_ix(700);
    let st = DepositState {
        depositor: funded(5_000),
        global_pda: AccountRecord { lamports: u64::MAX, owner: ID, data_len: 1 },
        mint_ata: AccountRecord { lamports: 2_000, owner: key(20), data_len: TOKEN_ACCOUNT_SPACE },
        mint: initialized_mint(),
        holder: Some(TokenAccountRecord { owner: key(2), mint: key(11), amount: 0 }),
    };
    assert_eq!(
        ix.process(st, 2_000),
        Err(VaultError::UnderlyingPrimitive(PrimitiveFailure::BalanceOverflow))
    );
}

#[test]
fn initialize_over_initialized_mint_rejected() {
    let accounts = init_accounts();
    let ix = Initialize::try_from(&accounts, &key(10), &key(11)).unwrap();
    let st = InitializeState {
        initializer: funded(10_000),
        global_pda: fresh(),
        mint_account: fresh(),
        mint: Some(initialized_mint()),
    };
    assert_eq!(
        ix.process(&ID, st, 900, 1_500),
        Err(VaultError::UnderlyingPrimitive(PrimitiveFailure::AlreadyInitialized))
    );
}

#[test]
fn redeem_moves_value_back_and_conserves() {
    let ix = redeem_ix(500_000);
    let st = RedeemState {
        redeemer: funded(997_000),
        global_pda: AccountRecord { lamports: 1_000_900, owner: ID, data_len: 1 },
        mint: MintRecord { supply: 1_000_000, ..initialized_mint() },
        holder: TokenAccountRecord { owner: key(2), mint: key(11), amount: 1_000_000 },
    };
    let post = ix.process(st).unwrap();
    assert_eq!(post.holder.amount, 500_000);
    assert_eq!(post.global_pda.lamports, 500_900);
    assert_eq!(post.redeemer.lamports, 1_497_000);
    assert_eq!(post.mint.supply, 500_000);
    // settlement conserves the two native balances
    assert_eq!(
        post.global_pda.lamports + post.redeemer.lamports,
        st.global_pda.lamports + st.redeemer.lamports
    );
}

#[test]
fn redeem_foreign_mint_rejected_before_any_burn() {
    let mut accounts = redeem_accounts();
    accounts[1] = key(99);
    let data = 5u64.to_le_bytes();
    let r = Redeem::try_from(&accounts, &data, &key(10), &key(11), &key(12));
    assert_eq!(r, Err(VaultError::SeedMismatch));
}

#[test]
fn redeem_holder_record_of_foreign_mint_rejected() {
    let ix = redeem_ix(5);
    let st = RedeemState {
        redeemer: funded(0),
        global_pda: AccountRecord { lamports: 900, owner: ID, data_len: 1 },
        mint: initialized_mint(),
        holder: TokenAccountRecord { owner: key(2), mint: key(99), amount: 100 },
    };
    assert_eq!(
        ix.process(st),
        Err(VaultError::UnderlyingPrimitive(PrimitiveFailure::MintMismatch))
    );
}

#[test]
fn redeem_not_owner_rejected() {
    let ix = redeem_ix(5);
    let st = RedeemState {
        redeemer: funded(0),
        global_pda: AccountRecord { lamports: 900, owner: ID, data_len: 1 },
        mint: MintRecord { supply: 100, ..initialized_mint() },
        holder: TokenAccountRecord { owner: key(77), mint: key(11), amount: 100 },
    };
    assert_eq!(
        ix.process(st),
        Err(VaultError::UnderlyingPrimitive(PrimitiveFailure::OwnerMismatch))
    );
}

#[test]
fn redeem_insufficient_shares_rejected() {
    let ix = redeem_ix(101);
    let st = RedeemState {
        redeemer: funded(0),
        global_pda: AccountRecord { lamports: 10_000, owner: ID, data_len: 1 },
        mint: MintRecord { supply: 100, ..initialized_mint() },
        holder: TokenAccountRecord { owner: key(2), mint: key(11), amount: 100 },
    };
    assert_eq!(
        ix.process(st),
        Err(VaultError::UnderlyingPrimitive(PrimitiveFailure::InsufficientFunds))
    );
}

#[test]
fn redeem_beyond_vault_balance_is_arithmetic_error() {
    let ix = redeem_ix(1_000);
    let st = RedeemState {
        redeemer: funded(0),
        global_pda: AccountRecord { lamports: 999, owner: ID, data_len: 1 },
        mint: MintRecord { supply: 5_000, ..initialized_mint() },
        holder: TokenAccountRecord { owner: key(2), mint: key(11), amount: 5_000 },
    };
    assert_eq!(ix.process(st), Err(VaultError::Arithmetic));
}

#[test]
fn deposit_then_redeem_round_trip() {
    let n: u64 = 123_456;
    let dep = deposit_ix(n);
    let st = DepositState {
        depositor: funded(1_000_000),
        global_pda: AccountRecord { lamports: 900, owner: ID, data_len: 1 },
        mint_ata: AccountRecord { lamports: 2_000, owner: key(20), data_len: TOKEN_ACCOUNT_SPACE },
        mint: initialized_mint(),
        holder: Some(TokenAccountRecord { owner: key(2), mint: key(11), amount: 0 }),
    };
    let mid = dep.process(st, 2_000).unwrap();
    let red = redeem_ix(n);
    let back = red
        .process(RedeemState {
            redeemer: mid.depositor,
            global_pda: mid.global_pda,
            mint: mid.mint,
            holder: mid.holder.unwrap(),
        })
        .unwrap();
    assert_eq!(back.holder.amount, 0);
    assert_eq!(back.redeemer.lamports, st.depositor.lamports);
    assert_eq!(back.global_pda.lamports, st.global_pda.lamports);
    assert_eq!(back.mint.supply, st.mint.supply);
}

#[test]
fn scenario_initialize_deposit_redeem() {
    // initialize, then a fresh holder deposits 1,000,000, then redeems half
    let after_init = run_initialize(10_000);
    let mint = after_init.mint.unwrap();

    let dep = deposit_ix(1_000_000);
    let dep_st = DepositState {
        depositor: funded(3_000_000),
        global_pda: after_init.global_pda,
        mint_ata: fresh(),
        mint,
        holder: None,
    };
    let after_dep = dep.process(dep_st, 2_000).unwrap();
    assert_eq!(after_dep.holder.unwrap().amount, 1_000_000);
    assert_eq!(after_dep.global_pda.lamports, after_init.global_pda.lamports + 1_000_000);

    let red = redeem_ix(500_000);
    let after_red = red
        .process(RedeemState {
            redeemer: after_dep.depositor,
            global_pda: after_dep.global_pda,
            mint: after_dep.mint,
            holder: after_dep.holder.unwrap(),
        })
        .unwrap();
    assert_eq!(after_red.holder.amount, 500_000);
    assert_eq!(after_red.global_pda.lamports, after_dep.global_pda.lamports - 500_000);
    assert_eq!(after_red.redeemer.lamports, after_dep.depositor.lamports + 500_000);
    assert_eq!(after_red.mint.supply, 500_000);
}
