//! An escrow vault: holders deposit the ledger's native value unit into a
//! program-controlled account and receive fungible shares 1:1; burning shares
//! redeems value 1:1.
//!
//! The library is the instruction-processing core: payload parsing, account
//! validation against deterministically derived addresses, and the ledger
//! state transitions of the three operations (initialize, deposit, redeem).
//! The on-chain glue that derives addresses and performs the nested service
//! invocations lives outside the library and acts on its decisions.
use vstd::prelude::*;

pub mod errors;
pub mod instructions;
pub mod laws;
pub mod ledger;
pub mod payload;

use errors::VaultError;

verus! {

/// A ledger account address: a fixed 32-byte identifier.
pub type Pubkey = [u8; 32];

/// This program's own identity on the ledger.
pub const ID: Pubkey = [
    0x0f, 0x1e, 0x6b, 0x14, 0x21, 0xc0, 0x4a, 0x07, 0x04, 0x31, 0x26, 0x5c, 0x19, 0xc5, 0xbb,
    0xee, 0x19, 0x92, 0xba, 0xe8, 0xaf, 0xd1, 0xcd, 0x07, 0x8e, 0xf8, 0xaf, 0x70, 0x47, 0xdc,
    0x11, 0xf7,
];

/// Address equality, stated over the byte sequences the two addresses hold.
pub fn pubkey_eq(a: &Pubkey, b: &Pubkey) -> (r: bool)
    ensures
        r <==> a@ == b@,
{
    let mut i: usize = 0;
    while i < 32
        invariant
            i <= 32,
            forall|k: int| 0 <= k < i ==> a@[k] == b@[k],
        decreases 32 - i,
    {
        if a[i] != b[i] {
            return false;
        }
        i += 1;
    }
    proof {
        assert(a@ =~= b@);
    }
    true
}

/// The fixed identity of the associated-account convention service, under
/// which every holder share account address is derived.
pub const ASSOCIATED_TOKEN_PROGRAM_ID: Pubkey = [
    140, 151, 37, 143, 78, 36, 137, 241, 187, 61, 16, 41, 20, 142, 13, 131, 11, 90, 19, 153, 218,
    255, 16, 132, 4, 142, 123, 216, 219, 233, 248, 89,
];

/// The deterministic addresses the caller re-derives before dispatch: the
/// vault authority (seed `"global"`, with its disambiguation byte), the
/// share mint (seed `"mint"`), both under this program's identity, and the
/// holder share account of the signer in first position, derived per the
/// associated-account convention. The last is only consulted for deposit
/// and redeem.
#[derive(Clone, Copy, Debug, PartialEq, Eq)]
pub struct DerivedAddresses {
    /// The vault authority address.
    pub global: Pubkey,
    /// The disambiguation byte of the vault authority derivation.
    pub global_bump: u8,
    /// The share mint address.
    pub mint: Pubkey,
    /// The holder share account address of the signer in first position.
    pub holder_share: Pubkey,
}

/// A fully validated instruction, ready to be acted on.
#[derive(Clone, Copy, Debug, PartialEq, Eq)]
pub enum VaultInstruction {
    /// One-shot setup of the vault authority and the share mint.
    Initialize(instructions::Initialize),
    /// Move native value into escrow and mint shares 1:1.
    Deposit(instructions::Deposit),
    /// Burn shares and pay native value out of escrow 1:1.
    Redeem(instructions::Redeem),
}

/// What dispatch yields: the first payload byte selects the operation, the
/// remaining bytes and the whole account list go to its validation
/// unmodified; an empty payload or an unknown opcode is malformed.
pub open spec fn dispatch_spec(
    accounts: Seq<Pubkey>,
    data: Seq<u8>,
    derived: DerivedAddresses,
) -> Result<VaultInstruction, VaultError> {
    if data.len() == 0 {
        Err(VaultError::MalformedPayload)
    } else {
        let payload = data.subrange(1, data.len() as int);
        if data[0] == instructions::initialize::DISCRIMINATOR {
            match instructions::initialize::initialize_try_from_spec(
                accounts,
                derived.global,
                derived.mint,
            ) {
                Err(e) => Err(e),
                Ok(ix) => Ok(VaultInstruction::Initialize(ix)),
            }
        } else if data[0] == instructions::deposit::DISCRIMINATOR {
            match instructions::deposit::deposit_try_from_spec(
                accounts,
                payload,
                derived.global,
                derived.global_bump,
                derived.mint,
                derived.holder_share,
            ) {
                Err(e) => Err(e),
                Ok(ix) => Ok(VaultInstruction::Deposit(ix)),
            }
        } else if data[0] == instructions::redeem::DISCRIMINATOR {
            match instructions::redeem::redeem_try_from_spec(
                accounts,
                payload,
                derived.global,
                derived.mint,
                derived.holder_share,
            ) {
                Err(e) => Err(e),
                Ok(ix) => Ok(VaultInstruction::Redeem(ix)),
            }
        } else {
            Err(VaultError::MalformedPayload)
        }
    }
}

/// Reads the opcode from the first payload byte, routes the remaining
/// bytes and the account list to the matching validation, and returns the
/// validated instruction. No state is read or written here: a refusal at
/// this stage provably changes nothing.
pub fn process_instruction(
    accounts: &[Pubkey],
    instruction_data: &[u8],
    derived: &DerivedAddresses,
) -> (r: Result<VaultInstruction, VaultError>)
    ensures
        r == dispatch_spec(accounts@, instruction_data@, *derived),
        instruction_data@.len() == 0 ==> r == Err::<VaultInstruction, VaultError>(
            VaultError::MalformedPayload,
        ),
        (instruction_data@.len() > 0 && instruction_data@[0] != 0 && instruction_data@[0] != 1
            && instruction_data@[0] != 2) ==> r == Err::<VaultInstruction, VaultError>(
            VaultError::MalformedPayload,
        ),
{
    if instruction_data.len() == 0 {
        return Err(VaultError::MalformedPayload);
    }
    let opcode = *vstd::slice::slice_index_get(instruction_data, 0);
    let payload = vstd::slice::slice_subrange(instruction_data, 1, instruction_data.len());
    if opcode == instructions::initialize::DISCRIMINATOR {
        match instructions::Initialize::try_from(accounts, &derived.global, &derived.mint) {
            Ok(ix) => Ok(VaultInstruction::Initialize(ix)),
            Err(e) => Err(e),
        }
    } else if opcode == instructions::deposit::DISCRIMINATOR {
        match instructions::Deposit::try_from(
            accounts,
            payload,
            &derived.global,
            derived.global_bump,
            &derived.mint,
            &derived.holder_share,
        ) {
            Ok(ix) => Ok(VaultInstruction::Deposit(ix)),
            Err(e) => Err(e),
        }
    } else if opcode == instructions::redeem::DISCRIMINATOR {
        match instructions::Redeem::try_from(
            accounts,
            payload,
            &derived.global,
            &derived.mint,
            &derived.holder_share,
        ) {
            Ok(ix) => Ok(VaultInstruction::Redeem(ix)),
            Err(e) => Err(e),
        }
    } else {
        Err(VaultError::MalformedPayload)
    }
}

} // verus!
