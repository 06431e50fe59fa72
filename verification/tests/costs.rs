use near_sdk::borsh::BorshSerialize;
use token_factory::cost::{required_deposit_for, storage_cost, EXTRA_BYTES, STORAGE_PRICE_PER_BYTE};
use token_factory::record::{TokenArgs, TokenMetadata};

fn plain_metadata(symbol: &str) -> TokenMetadata {
    TokenMetadata {
        spec: "ft-1.0.0".to_string(),
        name: "Gold".to_string(),
        symbol: symbol.to_string(),
        icon: None,
        reference: None,
        reference_hash: None,
        decimals: 18,
    }
}

fn full_metadata() -> TokenMetadata {
    TokenMetadata {
        spec: "ft-1.0.0".to_string(),
        name: "Gòld".to_string(),
        symbol: "GOLD".to_string(),
        icon: Some("data:image".to_string()),
        reference: Some("https://x.y".to_string()),
        reference_hash: Some(vec![7u8; 32]),
        decimals: 24,
    }
}

fn borsh_len(args: &TokenArgs) -> u64 {
    let m = args.metadata();
    let bytes = (
        args.owner_id().clone(),
        args.total_supply(),
        m.spec.clone(),
        m.name.clone(),
        m.symbol.clone(),
        m.icon.clone(),
        m.reference.clone(),
        m.reference_hash.clone(),
        m.decimals,
    )
        .try_to_vec()
        .unwrap();
    bytes.len() as u64
}

#[test]
fn price_per_byte_is_the_host_constant() {
    assert_eq!(STORAGE_PRICE_PER_BYTE, 10_000_000_000_000_000_000u128);
    assert_eq!(STORAGE_PRICE_PER_BYTE, near_sdk::env::STORAGE_PRICE_PER_BYTE);
    assert_eq!(storage_cost(1), 10_000_000_000_000_000_000u128);
}

#[test]
fn storage_cost_is_linear_in_the_bytes() {
    assert_eq!(storage_cost(0), 0);
    assert_eq!(storage_cost(100), 1_000_000_000_000_000_000_000u128);
    assert_eq!(
        storage_cost(u64::MAX),
        18_446_744_073_709_551_615u128 * 10_000_000_000_000_000_000u128
    );
}

#[test]
fn serialized_size_of_a_plain_record() {
    let args = TokenArgs::new("alice.near".to_string(), 1000, plain_metadata("GOLD")).unwrap();
    // owner 4+10, supply 16, spec 4+8, name 4+4, symbol 4+4, three absent
    // options 1 each, decimals 1
    assert_eq!(args.serialized_size(), 62);
}

#[test]
fn serialized_size_counts_present_options_and_utf8_bytes() {
    let args = TokenArgs::new("alice.near".to_string(), 1, full_metadata()).unwrap();
    // owner 14, supply 16, spec 12, name 4+5, symbol 8, icon 1+4+10,
    // reference 1+4+11, hash 1+4+32, decimals 1
    assert_eq!(args.serialized_size(), 14 + 16 + 12 + 9 + 8 + 15 + 16 + 37 + 1);
}

#[test]
fn serialized_size_agrees_with_the_binary_encoding() {
    let plain = TokenArgs::new("alice.near".to_string(), 1000, plain_metadata("GOLD")).unwrap();
    assert_eq!(plain.serialized_size(), borsh_len(&plain));
    let full = TokenArgs::new("bob_2".to_string(), u128::MAX, full_metadata()).unwrap();
    assert_eq!(full.serialized_size(), borsh_len(&full));
    let empty = TokenArgs::new(
        String::new(),
        0,
        TokenMetadata {
            spec: String::new(),
            name: String::new(),
            symbol: String::new(),
            icon: Some(String::new()),
            reference: None,
            reference_hash: Some(Vec::new()),
            decimals: 0,
        },
    )
    .unwrap();
    assert_eq!(empty.serialized_size(), borsh_len(&empty));
    assert_eq!(empty.serialized_size(), 4 + 16 + 4 + 4 + 4 + 5 + 1 + 5 + 1);
}

#[test]
fn required_deposit_of_a_plain_record() {
    let args = TokenArgs::new("alice.near".to_string(), 1000, plain_metadata("GOLD")).unwrap();
    // (1000 + 10000 + 2 * 62) bytes at 10^19 each
    assert_eq!(EXTRA_BYTES, 10_000);
    assert_eq!(required_deposit_for(1000, &args), 111_240_000_000_000_000_000_000u128);
    assert_eq!(required_deposit_for(0, &args), 101_240_000_000_000_000_000_000u128);
}

#[test]
fn required_deposit_grows_by_two_bytes_per_record_byte() {
    let short = TokenArgs::new("alice.near".to_string(), 1000, plain_metadata("GOLD")).unwrap();
    let long = TokenArgs::new("alice.near".to_string(), 1000, plain_metadata("GOLDEN")).unwrap();
    assert_eq!(
        required_deposit_for(500, &long) - required_deposit_for(500, &short),
        4 * STORAGE_PRICE_PER_BYTE
    );
}

#[test]
fn required_deposit_with_the_largest_code_size() {
    let args = TokenArgs::new("alice.near".to_string(), 1000, plain_metadata("GOLD")).unwrap();
    assert_eq!(
        required_deposit_for(u32::MAX, &args),
        (4_294_967_295u128 + 10_000 + 124) * 10_000_000_000_000_000_000u128
    );
}

#[test]
fn record_keeps_what_it_was_made_of() {
    let args = TokenArgs::new("alice.near".to_string(), 77, full_metadata()).unwrap();
    assert_eq!(args.owner_id(), "alice.near");
    assert_eq!(args.total_supply(), 77);
    assert_eq!(args.metadata(), &full_metadata());
    assert_eq!(args.clone(), args);
    assert!(full_metadata().is_encodable());
}
