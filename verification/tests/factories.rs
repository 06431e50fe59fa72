use token_factory::config::FactoryConfig;
use token_factory::error::FactoryError;
use token_factory::factory::TokenFactory;
use token_factory::provisioning::{ProvisioningRequest, INIT_GAS, INIT_METHOD};
use token_factory::record::{TokenArgs, TokenMetadata};

const PRICE: u128 = 10_000_000_000_000_000_000;
const CODE_SIZE: u32 = 1_000;
const ENTRY_BYTES: u64 = 100;
const BASE: u128 = 100 * PRICE;
// (1000 + 10000 + 2 * 62) bytes for a record with a four-letter name and symbol
const REQUIRED: u128 = 11_124 * PRICE;

fn gold_with(owner: &str, supply: u128, symbol: &str) -> TokenArgs {
    TokenArgs::new(
        owner.to_string(),
        supply,
        TokenMetadata {
            spec: "ft-1.0.0".to_string(),
            name: "Gold".to_string(),
            symbol: symbol.to_string(),
            icon: None,
            reference: None,
            reference_hash: None,
            decimals: 18,
        },
    )
    .unwrap()
}

fn gold() -> TokenArgs {
    gold_with("alice.near", 1_000, "GOLD")
}

fn fresh() -> TokenFactory {
    TokenFactory::new("factory.near".to_string(), CODE_SIZE, ENTRY_BYTES)
}

#[test]
fn new_factory_is_empty() {
    let factory = fresh();
    assert_eq!(factory.get_number_of_tokens(), 0);
    assert_eq!(factory.get_tokens(0, 100), Vec::<TokenArgs>::new());
    assert_eq!(factory.get_token("gold".to_string()), None);
    assert_eq!(factory.balance_of("alice.near"), 0);
    assert_eq!(factory.storage_balance_cost(), BASE);
    assert_eq!(factory.config().code_size(), CODE_SIZE);
    assert_eq!(factory.config().account_id(), "factory.near");
}

#[test]
fn min_attached_balance_follows_the_formula() {
    let factory = fresh();
    assert_eq!(factory.get_min_attached_balance(&gold()), REQUIRED);
    assert_eq!(REQUIRED, 111_240_000_000_000_000_000_000u128);
}

#[test]
fn required_deposit_of_a_newcomer_includes_the_base_cost() {
    let factory = fresh();
    assert_eq!(factory.get_required_deposit(gold(), "alice.near".to_string()), BASE + REQUIRED);
}

#[test]
fn required_deposit_of_a_depositor_is_what_the_credit_lacks() {
    let mut factory = fresh();
    factory.storage_deposit("alice.near", BASE + 1_000).unwrap();
    assert_eq!(factory.get_required_deposit(gold(), "alice.near".to_string()), REQUIRED - 1_000);
    // another requester still pays the base cost
    assert_eq!(factory.get_required_deposit(gold(), "bob.near".to_string()), BASE + REQUIRED);
}

#[test]
fn required_deposit_of_a_covered_requester_is_zero() {
    let mut factory = fresh();
    factory.storage_deposit("alice.near", BASE + REQUIRED).unwrap();
    assert_eq!(factory.get_required_deposit(gold(), "alice.near".to_string()), 0);
    factory.storage_deposit("alice.near", 5).unwrap();
    assert_eq!(factory.get_required_deposit(gold(), "alice.near".to_string()), 0);
}

#[test]
fn required_deposit_is_the_same_when_asked_twice() {
    let mut factory = fresh();
    factory.storage_deposit("alice.near", BASE + 77).unwrap();
    let first = factory.get_required_deposit(gold(), "alice.near".to_string());
    let second = factory.get_required_deposit(gold(), "alice.near".to_string());
    assert_eq!(first, second);
    assert_eq!(first, REQUIRED - 77);
    // asking changed nothing
    assert_eq!(factory.balance_of("alice.near"), 77);
    assert_eq!(factory.get_number_of_tokens(), 0);
}

#[test]
fn storage_deposit_rules() {
    let mut factory = fresh();
    assert_eq!(factory.storage_deposit("alice.near", BASE - 1), Err(FactoryError::DepositTooLow));
    assert_eq!(factory.balance_of("alice.near"), 0);
    assert_eq!(factory.storage_deposit("alice.near", BASE), Ok(()));
    assert_eq!(factory.balance_of("alice.near"), 0);
    assert_eq!(factory.storage_deposit("alice.near", 1), Ok(()));
    assert_eq!(factory.balance_of("alice.near"), 1);
    assert_eq!(factory.storage_deposit("alice.near", u128::MAX), Err(FactoryError::CreditOverflow));
    assert_eq!(factory.balance_of("alice.near"), 1);
}

#[test]
fn funded_creation_registers_the_token() {
    let mut factory = fresh();
    let payment = BASE + REQUIRED + 500;
    factory.storage_deposit("alice.near", payment).unwrap();
    assert_eq!(factory.balance_of("alice.near"), REQUIRED + 500);

    let request = factory.create_token(gold(), "alice.near", 0).unwrap();

    assert_eq!(factory.get_number_of_tokens(), 1);
    assert_eq!(factory.get_token("gold".to_string()), Some(gold()));
    assert_eq!(factory.get_tokens(0, 10), vec![gold()]);
    assert_eq!(factory.balance_of("alice.near"), 500);
    assert_eq!(request.account_id(), "gold.factory.near");
    assert_eq!(request.deposit(), REQUIRED);
    assert_eq!(request.args(), &gold());
}

#[test]
fn creation_with_exactly_the_required_credit() {
    let mut factory = fresh();
    factory.storage_deposit("alice.near", BASE + REQUIRED).unwrap();
    assert!(factory.create_token(gold(), "alice.near", 0).is_ok());
    assert_eq!(factory.balance_of("alice.near"), 0);
    assert_eq!(factory.get_number_of_tokens(), 1);
}

#[test]
fn creation_funded_by_the_attached_payment() {
    let mut factory = fresh();
    let request = factory.create_token(gold(), "alice.near", BASE + REQUIRED + 9).unwrap();
    assert_eq!(request.deposit(), REQUIRED);
    assert_eq!(factory.balance_of("alice.near"), 9);
    assert_eq!(factory.get_token("gold".to_string()), Some(gold()));
}

#[test]
fn attached_payment_adds_to_the_existing_credit() {
    let mut factory = fresh();
    factory.storage_deposit("alice.near", BASE + REQUIRED - 10).unwrap();
    assert!(factory.create_token(gold(), "alice.near", 10).is_ok());
    assert_eq!(factory.balance_of("alice.near"), 0);
}

#[test]
fn zero_supply_fails_before_anything_changes() {
    let mut factory = fresh();
    factory.storage_deposit("alice.near", BASE + REQUIRED).unwrap();
    let answer = factory.create_token(gold_with("alice.near", 0, "GOLD"), "alice.near", 0);
    assert_eq!(answer, Err(FactoryError::ZeroSupply));
    assert_eq!(factory.balance_of("alice.near"), REQUIRED);
    assert_eq!(factory.get_number_of_tokens(), 0);
    // not even an attached payment is taken in
    let answer = factory.create_token(gold_with("alice.near", 0, "GOLD"), "alice.near", 1_000);
    assert_eq!(answer, Err(FactoryError::ZeroSupply));
    assert_eq!(factory.balance_of("alice.near"), REQUIRED);
    let answer = factory.create_token(gold_with("bob.near", 0, "GOLD"), "bob.near", BASE + REQUIRED);
    assert_eq!(answer, Err(FactoryError::ZeroSupply));
    assert_eq!(factory.balance_of("bob.near"), 0);
}

#[test]
fn malformed_owner_is_rejected() {
    let mut factory = fresh();
    factory.storage_deposit("alice.near", BASE + REQUIRED).unwrap();
    for owner in ["a", "Alice.near", "alice..near", ".alice", "alice.", ""].iter() {
        let answer = factory.create_token(gold_with(owner, 1_000, "GOLD"), "alice.near", 0);
        assert_eq!(answer, Err(FactoryError::InvalidOwnerId));
    }
    assert_eq!(factory.balance_of("alice.near"), REQUIRED);
    assert_eq!(factory.get_number_of_tokens(), 0);
}

#[test]
fn malformed_owner_is_reported_before_zero_supply() {
    let mut factory = fresh();
    let answer = factory.create_token(gold_with("a", 0, "GOLD"), "alice.near", 0);
    assert_eq!(answer, Err(FactoryError::InvalidOwnerId));
}

#[test]
fn malformed_symbol_is_rejected() {
    let mut factory = fresh();
    factory.storage_deposit("alice.near", BASE + 10 * REQUIRED).unwrap();
    for symbol in ["GO-LD", "go ld", "gòld", "go.ld", "go_ld"].iter() {
        let answer = factory.create_token(gold_with("alice.near", 1_000, symbol), "alice.near", 0);
        assert_eq!(answer, Err(FactoryError::InvalidTokenId));
    }
    assert_eq!(factory.balance_of("alice.near"), 10 * REQUIRED);
    assert_eq!(factory.get_number_of_tokens(), 0);
}

#[test]
fn empty_symbol_is_rejected_by_the_account_name() {
    let mut factory = fresh();
    factory.storage_deposit("alice.near", BASE + 10 * REQUIRED).unwrap();
    let answer = factory.create_token(gold_with("alice.near", 1_000, ""), "alice.near", 0);
    assert_eq!(answer, Err(FactoryError::InvalidTokenAccountId));
    assert_eq!(factory.balance_of("alice.near"), 10 * REQUIRED);
    assert_eq!(factory.get_number_of_tokens(), 0);
}

#[test]
fn overlong_token_account_is_rejected() {
    let mut factory = fresh();
    factory.storage_deposit("alice.near", BASE + 10 * REQUIRED).unwrap();
    // 52 + 1 + 12 = 65 characters
    let symbol = "g".repeat(52);
    let answer = factory.create_token(gold_with("alice.near", 1_000, &symbol), "alice.near", 0);
    assert_eq!(answer, Err(FactoryError::InvalidTokenAccountId));
    // 51 + 1 + 12 = 64 characters
    let symbol = "g".repeat(51);
    let request = factory.create_token(gold_with("alice.near", 1_000, &symbol), "alice.near", 0).unwrap();
    assert_eq!(request.account_id().len(), 64);
}

#[test]
fn missing_credit_is_rejected() {
    let mut factory = fresh();
    let answer = factory.create_token(gold(), "alice.near", 0);
    assert_eq!(answer, Err(FactoryError::InsufficientCredit));
    assert_eq!(factory.balance_of("alice.near"), 0);
    assert_eq!(factory.get_number_of_tokens(), 0);

    factory.storage_deposit("alice.near", BASE + REQUIRED - 1).unwrap();
    let answer = factory.create_token(gold(), "alice.near", 0);
    assert_eq!(answer, Err(FactoryError::InsufficientCredit));
    assert_eq!(factory.balance_of("alice.near"), REQUIRED - 1);
    assert_eq!(factory.get_number_of_tokens(), 0);
    assert_eq!(factory.get_token("gold".to_string()), None);
}

#[test]
fn attached_payment_below_the_base_cost_is_rejected() {
    let mut factory = fresh();
    let answer = factory.create_token(gold(), "alice.near", BASE - 1);
    assert_eq!(answer, Err(FactoryError::DepositTooLow));
    assert_eq!(factory.balance_of("alice.near"), 0);
    assert_eq!(factory.get_required_deposit(gold(), "alice.near".to_string()), BASE + REQUIRED);
}

#[test]
fn attached_payment_that_overflows_the_credit_is_rejected() {
    let mut factory = fresh();
    factory.storage_deposit("alice.near", BASE + 5).unwrap();
    let answer = factory.create_token(gold(), "alice.near", u128::MAX);
    assert_eq!(answer, Err(FactoryError::CreditOverflow));
    assert_eq!(factory.balance_of("alice.near"), 5);
    assert_eq!(factory.get_number_of_tokens(), 0);
}

#[test]
fn attached_payment_stays_credited_when_the_credit_falls_short() {
    let mut factory = fresh();
    let answer = factory.create_token(gold(), "alice.near", BASE + 40);
    assert_eq!(answer, Err(FactoryError::InsufficientCredit));
    assert_eq!(factory.balance_of("alice.near"), 40);
    assert_eq!(factory.get_number_of_tokens(), 0);
    assert_eq!(factory.get_required_deposit(gold(), "alice.near".to_string()), REQUIRED - 40);
}

#[test]
fn second_creation_under_the_same_identifier_fails() {
    let mut factory = fresh();
    factory.storage_deposit("alice.near", BASE + 3 * REQUIRED).unwrap();
    factory.storage_deposit("bob.near", BASE + 3 * REQUIRED).unwrap();
    factory.create_token(gold(), "alice.near", 0).unwrap();
    assert_eq!(factory.balance_of("alice.near"), 2 * REQUIRED);

    let again = factory.create_token(gold(), "alice.near", 0);
    assert_eq!(again, Err(FactoryError::DuplicateTokenId));
    assert_eq!(factory.balance_of("alice.near"), 2 * REQUIRED);

    // the identifier is the symbol in lower case, whoever asks
    let other = gold_with("bob.near", 7, "gold");
    assert_eq!(factory.create_token(other, "bob.near", 0), Err(FactoryError::DuplicateTokenId));
    assert_eq!(factory.balance_of("bob.near"), 3 * REQUIRED);

    assert_eq!(factory.get_number_of_tokens(), 1);
    assert_eq!(factory.get_token("gold".to_string()), Some(gold()));
    assert_eq!(factory.get_tokens(0, 10), vec![gold()]);
}

#[test]
fn duplicate_with_an_attached_payment_charges_nothing() {
    let mut factory = fresh();
    factory.create_token(gold(), "alice.near", BASE + REQUIRED).unwrap();
    let again = factory.create_token(gold(), "bob.near", BASE + REQUIRED + 3);
    assert_eq!(again, Err(FactoryError::DuplicateTokenId));
    // the payment is credited, the deposit is not charged
    assert_eq!(factory.balance_of("bob.near"), REQUIRED + 3);
    assert_eq!(factory.balance_of("alice.near"), 0);
    assert_eq!(factory.get_number_of_tokens(), 1);
}

#[test]
fn short_credit_is_reported_before_a_taken_identifier() {
    let mut factory = fresh();
    factory.create_token(gold(), "alice.near", BASE + REQUIRED).unwrap();
    assert_eq!(factory.create_token(gold(), "alice.near", 0), Err(FactoryError::InsufficientCredit));
}

#[test]
fn tokens_are_listed_in_the_order_of_creation() {
    let mut factory = fresh();
    factory.storage_deposit("alice.near", BASE + 10 * REQUIRED).unwrap();
    let symbols = ["DDDD", "AAAA", "CCCC", "BBBB"];
    for symbol in symbols.iter() {
        factory.create_token(gold_with("alice.near", 1, symbol), "alice.near", 0).unwrap();
    }
    assert_eq!(factory.get_number_of_tokens(), 4);
    let all: Vec<String> =
        factory.get_tokens(0, 10).iter().map(|a| a.metadata().symbol.clone()).collect();
    assert_eq!(all, vec!["DDDD", "AAAA", "CCCC", "BBBB"]);
    let rest: Vec<String> =
        factory.get_tokens(2, 100).iter().map(|a| a.metadata().symbol.clone()).collect();
    assert_eq!(rest, vec!["CCCC", "BBBB"]);
    let middle: Vec<String> =
        factory.get_tokens(1, 2).iter().map(|a| a.metadata().symbol.clone()).collect();
    assert_eq!(middle, vec!["AAAA", "CCCC"]);
    assert_eq!(factory.get_tokens(4, 5), Vec::<TokenArgs>::new());
    assert_eq!(factory.get_tokens(9, u64::MAX), Vec::<TokenArgs>::new());
    assert_eq!(factory.get_tokens(3, u64::MAX).len(), 1);
    assert_eq!(factory.balance_of("alice.near"), 6 * REQUIRED);
}

#[test]
fn forwarded_balance_is_the_deposit_less_the_storage_used() {
    let mut factory = fresh();
    let request = factory.create_token(gold(), "alice.near", BASE + REQUIRED).unwrap();
    assert_eq!(request.initial_balance(0), Some(REQUIRED));
    assert_eq!(request.initial_balance(300), Some(REQUIRED - 300 * PRICE));
    assert_eq!(request.initial_balance(11_124), Some(0));
    assert_eq!(request.initial_balance(11_125), None);
    assert_eq!(request.initial_balance(u64::MAX), None);
}

#[test]
fn provisioning_request_on_plain_values() {
    let request = ProvisioningRequest::new("gold.factory.near".to_string(), 5 * PRICE, gold());
    assert_eq!(request.account_id(), "gold.factory.near");
    assert_eq!(request.deposit(), 5 * PRICE);
    assert_eq!(request.initial_balance(2), Some(3 * PRICE));
    assert_eq!(request.initial_balance(6), None);
    assert_eq!(INIT_METHOD, "new");
    assert_eq!(INIT_GAS, 50_000_000_000_000);
}

#[test]
fn validation_names_the_token() {
    let config = FactoryConfig::new("factory.near".to_string(), CODE_SIZE, ENTRY_BYTES);
    assert_eq!(
        config.validate(&gold()),
        Ok(("gold".to_string(), "gold.factory.near".to_string()))
    );
    assert_eq!(config.validate(&gold_with("alice.near", 0, "GOLD")), Err(FactoryError::ZeroSupply));
    assert_eq!(config.base_cost(), BASE);
    assert_eq!(config.required_deposit(&gold()), REQUIRED);
}

#[test]
fn plan_leaves_the_entry_alone_when_the_request_is_invalid() {
    let config = FactoryConfig::new("factory.near".to_string(), CODE_SIZE, ENTRY_BYTES);
    let plan = config.plan_creation(gold_with("alice.near", 0, "GOLD"), Some(7), BASE, false);
    assert_eq!(plan.credit, Some(7));
    assert_eq!(plan.answer, Err(FactoryError::ZeroSupply));
    let plan = config.plan_creation(gold(), None, BASE - 1, false);
    assert_eq!(plan.credit, None);
    assert_eq!(plan.answer, Err(FactoryError::DepositTooLow));
}

#[test]
fn plan_takes_the_payment_in_before_it_charges() {
    let config = FactoryConfig::new("factory.near".to_string(), CODE_SIZE, ENTRY_BYTES);
    let plan = config.plan_creation(gold(), None, BASE + 5, false);
    assert_eq!(plan.credit, Some(5));
    assert_eq!(plan.answer, Err(FactoryError::InsufficientCredit));
    let plan = config.plan_creation(gold(), Some(REQUIRED), 5, true);
    assert_eq!(plan.credit, Some(REQUIRED + 5));
    assert_eq!(plan.answer, Err(FactoryError::DuplicateTokenId));
    let plan = config.plan_creation(gold(), Some(REQUIRED), 5, false);
    assert_eq!(plan.credit, Some(5));
    assert_eq!(
        plan.answer,
        Ok(ProvisioningRequest::new("gold.factory.near".to_string(), REQUIRED, gold()))
    );
}

#[test]
fn outstanding_deposit_on_plain_values() {
    let config = FactoryConfig::new("factory.near".to_string(), CODE_SIZE, ENTRY_BYTES);
    assert_eq!(config.outstanding_deposit(&gold(), None), BASE + REQUIRED);
    assert_eq!(config.outstanding_deposit(&gold(), Some(0)), REQUIRED);
    assert_eq!(config.outstanding_deposit(&gold(), Some(REQUIRED)), 0);
    assert_eq!(config.outstanding_deposit(&gold(), Some(u128::MAX)), 0);
    let largest = FactoryConfig::new("factory.near".to_string(), u32::MAX, u64::MAX);
    assert_eq!(
        largest.outstanding_deposit(&gold(), None),
        (u64::MAX as u128 + u32::MAX as u128 + 10_124) * PRICE
    );
}
