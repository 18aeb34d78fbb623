//! Instruction payload decoding.
//!
//! Deposit and redeem carry exactly 8 little-endian bytes encoding a
//! strictly positive unsigned 64-bit amount.
use crate::errors::VaultError;
use vstd::prelude::*;
use vstd::slice::slice_index_get;

verus! {

/// The unsigned integer that 8 little-endian bytes encode.
pub open spec fn le_u64_of(s: Seq<u8>) -> int
    recommends
        s.len() == 8,
{
    s[0] + s[1] * 0x100 + s[2] * 0x1_0000 + s[3] * 0x100_0000 + s[4] * 0x1_0000_0000 + s[5]
        * 0x100_0000_0000 + s[6] * 0x1_0000_0000_0000 + s[7] * 0x100_0000_0000_0000
}

/// What decoding an amount payload yields: the encoded amount, or a payload
/// refusal when the length is not exactly 8 bytes or the amount is zero.
pub open spec fn parse_amount_spec(data: Seq<u8>) -> Result<u64, VaultError> {
    if data.len() != 8 {
        Err(VaultError::MalformedPayload)
    } else if le_u64_of(data) == 0 {
        Err(VaultError::MalformedPayload)
    } else {
        Ok(le_u64_of(data) as u64)
    }
}

/// Reads an unsigned 64-bit integer from 8 little-endian bytes.
pub fn read_le_u64(data: &[u8]) -> (r: u64)
    requires
        data@.len() == 8,
    ensures
        r == le_u64_of(data@),
{
    let b0 = *slice_index_get(data, 0) as u64;
    let b1 = *slice_index_get(data, 1) as u64;
    let b2 = *slice_index_get(data, 2) as u64;
    let b3 = *slice_index_get(data, 3) as u64;
    let b4 = *slice_index_get(data, 4) as u64;
    let b5 = *slice_index_get(data, 5) as u64;
    let b6 = *slice_index_get(data, 6) as u64;
    let b7 = *slice_index_get(data, 7) as u64;
    b0 + b1 * 0x100 + b2 * 0x1_0000 + b3 * 0x100_0000 + b4 * 0x1_0000_0000 + b5 * 0x100_0000_0000
        + b6 * 0x1_0000_0000_0000 + b7 * 0x100_0000_0000_0000
}

/// Decodes an amount payload: exactly 8 little-endian bytes, amount nonzero.
pub fn parse_amount(data: &[u8]) -> (r: Result<u64, VaultError>)
    ensures
        r == parse_amount_spec(data@),
        r matches Ok(amount) ==> amount > 0 && amount == le_u64_of(data@),
        data@.len() != 8 ==> r == Err::<u64, VaultError>(VaultError::MalformedPayload),
        (data@.len() == 8 && le_u64_of(data@) == 0) ==> r == Err::<u64, VaultError>(
            VaultError::MalformedPayload,
        ),
{
    if data.len() != 8 {
        return Err(VaultError::MalformedPayload);
    }
    let amount = read_le_u64(data);
    if amount == 0 {
        return Err(VaultError::MalformedPayload);
    }
    Ok(amount)
}

} // verus!
