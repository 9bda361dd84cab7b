//! The payloads of the operations as bytes.
//!
//! Integers are little-endian and fixed in width. A pool's name is UTF-8,
//! preceded by its length in one byte.

use crate::deposit::{DepositParam, QueryParam, TransferInput};
use crate::error::LedgerError;
use crate::identity::Identity;
use crate::pool::PoolParam;
use vstd::bytes::{spec_u64_from_le_bytes, spec_u64_to_le_bytes};
use vstd::prelude::*;
use vstd::slice::{slice_subrange, slice_to_vec};
use vstd::utf8::{decode_utf8, valid_utf8};

verus! {

/// The code that opens the data of a transfer instruction.
pub const TRANSFER_CODE: u8 = 3;

/// Decodes a `u64` with `borsh::from_slice`. The decoder reads eight bytes
/// as a little-endian integer and refuses input that is shorter or that has
/// bytes left over, so exactly eight bytes decode, and nothing else does.
#[verifier::external_body]
fn borsh_u64(bytes: &[u8]) -> (r: Option<u64>)
    ensures
        bytes@.len() == 8 ==> r == Some(spec_u64_from_le_bytes(bytes@)),
        bytes@.len() != 8 ==> r is None,
{
    borsh::from_slice::<u64>(bytes).ok()
}

/// Encodes a `u64` with `borsh::to_vec`. The encoder writes the eight bytes
/// of the little-endian form into a fresh vector, which cannot fail.
#[verifier::external_body]
fn borsh_bytes(value: u64) -> (r: Option<Vec<u8>>)
    ensures
        r is Some,
        r.unwrap()@ == spec_u64_to_le_bytes(value),
{
    borsh::to_vec(&value).ok()
}

/// Turns bytes into a string with `String::from_utf8`, which succeeds
/// exactly on well-formed UTF-8 and then holds the characters the bytes
/// encode.
#[verifier::external_body]
fn utf8_string(bytes: Vec<u8>) -> (r: Option<String>)
    ensures
        valid_utf8(bytes@) ==> r is Some && r.unwrap()@ == decode_utf8(bytes@),
        !valid_utf8(bytes@) ==> r is None,
{
    String::from_utf8(bytes).ok()
}

/// The integer that the eight bytes of `data` from `at` on encode.
pub open spec fn le_u64(data: Seq<u8>, at: int) -> u64 {
    spec_u64_from_le_bytes(data.subrange(at, at + 8))
}

/// What a deposit's payload decodes to: the pool's id, then the amount, in
/// sixteen bytes.
pub open spec fn deposit_payload(data: Seq<u8>) -> Result<DepositParam, LedgerError> {
    if data.len() == 16 {
        Ok(DepositParam { pool_id: le_u64(data, 0), amount: le_u64(data, 8) })
    } else {
        Err(LedgerError::Validation)
    }
}

/// What the payload of a withdrawal or a query decodes to: the pool's id, in
/// eight bytes.
pub open spec fn query_payload(data: Seq<u8>) -> Result<QueryParam, LedgerError> {
    if data.len() == 8 {
        Ok(QueryParam { pool_id: le_u64(data, 0) })
    } else {
        Err(LedgerError::Validation)
    }
}

/// The bytes of the name in the payload that creates a pool.
pub open spec fn name_bytes(data: Seq<u8>) -> Seq<u8> {
    data.subrange(1, 1 + data[0])
}

/// Whether `data` is a payload that creates a pool: the length of the name,
/// the name, the asset code and three integers are all there, and the name
/// is well-formed UTF-8. Bytes after them are not looked at.
pub open spec fn pool_payload_valid(data: Seq<u8>) -> bool {
    &&& data.len() >= 1
    &&& data.len() >= 26 + data[0]
    &&& valid_utf8(name_bytes(data))
}

/// Whether `param` is what the payload `data` says: name, asset code, yield,
/// lock-up and base value come from the payload; the risk tier is the
/// lowest, the asset is `asset`, and nothing is invested.
pub open spec fn pool_payload_holds(data: Seq<u8>, asset: Identity, param: PoolParam) -> bool {
    let n = data[0] as int;
    &&& param.pool_name@ == decode_utf8(name_bytes(data))
    &&& param.risk_type == 0
    &&& param.asset_type == data[1 + n]
    &&& param.apy == le_u64(data, 2 + n)
    &&& param.min_period == le_u64(data, 10 + n)
    &&& param.base_value == le_u64(data, 18 + n)
    &&& param.asset_pubkey == asset
    &&& param.investment_arm == 0
}

/// The data of the instruction that asks the transfer gateway to move
/// `amount`: the transfer code, then the amount.
pub open spec fn transfer_bytes(amount: u64) -> Seq<u8> {
    seq![TRANSFER_CODE] + spec_u64_to_le_bytes(amount)
}

/// Reads the integer in the eight bytes of `data` from `at` on.
fn read_u64(data: &[u8], at: usize) -> (r: u64)
    requires
        at + 8 <= data@.len() <= usize::MAX,
    ensures
        r == le_u64(data@, at as int),
{
    let field: &[u8] = slice_subrange(data, at, at + 8);
    borsh_u64(field).unwrap()
}

/// Decodes the payload of a deposit.
pub fn parse_deposit_param(data: &[u8]) -> (r: Result<DepositParam, LedgerError>)
    ensures
        r == deposit_payload(data@),
{
    if data.len() != 16 {
        return Err(LedgerError::Validation);
    }
    let pool_id: u64 = read_u64(data, 0);
    let amount: u64 = read_u64(data, 8);
    Ok(DepositParam { pool_id, amount })
}

/// Decodes the payload of a withdrawal or of a query.
pub fn parse_query_param(data: &[u8]) -> (r: Result<QueryParam, LedgerError>)
    ensures
        r == query_payload(data@),
{
    match borsh_u64(data) {
        Some(pool_id) => {
            assert(data@.subrange(0, 8) =~= data@);
            Ok(QueryParam { pool_id })
        },
        None => Err(LedgerError::Validation),
    }
}

/// Decodes the payload that creates a pool whose asset is `asset`.
pub fn parse_pool_param(data: &[u8], asset: Identity) -> (r: Result<PoolParam, LedgerError>)
    ensures
        pool_payload_valid(data@) ==> r is Ok && pool_payload_holds(data@, asset, r.unwrap()),
        !pool_payload_valid(data@) ==> r is Err && r.unwrap_err() == LedgerError::Validation,
{
    if data.len() < 1 {
        return Err(LedgerError::Validation);
    }
    let n: usize = data[0] as usize;
    if data.len() < 26 + n {
        return Err(LedgerError::Validation);
    }
    let name: Vec<u8> = slice_to_vec(slice_subrange(data, 1, 1 + n));
    let pool_name: String = match utf8_string(name) {
        Some(pool_name) => pool_name,
        None => { return Err(LedgerError::Validation); },
    };
    let asset_type: u8 = data[1 + n];
    let apy: u64 = read_u64(data, 2 + n);
    let min_period: u64 = read_u64(data, 10 + n);
    let base_value: u64 = read_u64(data, 18 + n);
    Ok(
        PoolParam {
            pool_name,
            risk_type: 0,
            apy,
            min_period,
            asset_pubkey: asset,
            asset_type,
            investment_arm: 0,
            base_value,
        },
    )
}

/// The data of the instruction that asks the transfer gateway to move what
/// `request` names.
pub fn transfer_data(request: &TransferInput) -> (r: Vec<u8>)
    ensures
        r@ == transfer_bytes(request.amount),
{
    let mut data: Vec<u8> = Vec::new();
    data.push(TRANSFER_CODE);
    let mut amount: Vec<u8> = borsh_bytes(request.amount).unwrap();
    data.append(&mut amount);
    data
}

} // verus!
