//! The price of the storage that a token registration takes up.

use vstd::prelude::*;
use crate::record::TokenArgs;

verus! {

/// The price of one byte of storage, in the smallest unit of value.
pub const STORAGE_PRICE_PER_BYTE: u128 = 10_000_000_000_000_000_000;

/// Bytes charged on top of the code and the record, as a margin.
pub const EXTRA_BYTES: u64 = 10_000;

/// No registration is charged for more bytes than this: the code size is a
/// 32-bit number, and each of the seven variable-length fields of a record
/// is announced by a 32-bit length.
pub const MAX_CHARGED_BYTES: u64 = 0x10_0000_0000;

/// The price of `bytes` bytes of storage.
pub open spec fn storage_cost_of(bytes: nat) -> nat {
    bytes * STORAGE_PRICE_PER_BYTE as nat
}

/// The bytes that a registration is charged for: the token's code, the
/// margin, and the encoded record twice.
pub open spec fn charged_bytes(code_size: nat, record_len: nat) -> nat {
    code_size + EXTRA_BYTES as nat + 2 * record_len
}

/// The deposit that registering a record of `record_len` encoded bytes
/// requires, when the token's code has `code_size` bytes.
pub open spec fn required_deposit(code_size: nat, record_len: nat) -> nat {
    storage_cost_of(charged_bytes(code_size, record_len))
}

/// What a requester still has to pay in: the part of `required` that the
/// existing credit does not cover, or, without a ledger entry, `required` and
/// the one-time bookkeeping cost.
pub open spec fn outstanding_deposit(required: nat, credit: Option<u128>, base_cost: nat) -> nat {
    match credit {
        Some(c) => if required >= c {
            (required - c) as nat
        } else {
            0
        },
        None => base_cost + required,
    }
}

/// Reads `near_sdk::env::STORAGE_PRICE_PER_BYTE`, a constant that the crate
/// defines as 10^19.
#[verifier::external_body]
fn env_storage_price_per_byte() -> (price: u128)
    ensures
        price == STORAGE_PRICE_PER_BYTE,
{
    near_sdk::env::STORAGE_PRICE_PER_BYTE
}

/// Prices `bytes` bytes of storage.
pub fn storage_cost(bytes: u64) -> (cost: u128)
    ensures
        cost == storage_cost_of(bytes as nat),
{
    let price = env_storage_price_per_byte();
    assert(bytes * STORAGE_PRICE_PER_BYTE <= u64::MAX * STORAGE_PRICE_PER_BYTE) by (nonlinear_arith)
        requires
            bytes <= u64::MAX,
    ;
    bytes as u128 * price
}

/// Computes the deposit required to register `args` when the token's code
/// has `code_size` bytes.
pub fn required_deposit_for(code_size: u32, args: &TokenArgs) -> (deposit: u128)
    ensures
        deposit == required_deposit(code_size as nat, args@.encoded_len()),
        deposit <= storage_cost_of(MAX_CHARGED_BYTES as nat),
{
    let record_len = args.serialized_size();
    let bytes: u64 = code_size as u64 + EXTRA_BYTES + 2 * record_len;
    assert(bytes * STORAGE_PRICE_PER_BYTE <= MAX_CHARGED_BYTES * STORAGE_PRICE_PER_BYTE)
        by (nonlinear_arith)
        requires
            bytes <= MAX_CHARGED_BYTES,
    ;
    storage_cost(bytes)
}

} // verus!
