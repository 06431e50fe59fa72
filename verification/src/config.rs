//! What is fixed when a factory is set up, and the decisions that follow
//! from it: validation, pricing, and the plan of a creation.

use vstd::prelude::*;
use vstd::string::*;
use crate::cost::{
    outstanding_deposit,
    required_deposit,
    required_deposit_for,
    storage_cost,
    storage_cost_of,
    STORAGE_PRICE_PER_BYTE,
};
use crate::error::FactoryError;
use crate::identifier::{
    is_valid_account_id,
    is_valid_token_id,
    sub_account_id,
    token_account_id,
    token_id_of_symbol,
    valid_account_id,
    valid_token_id,
};
use crate::ledger::{credit_after_debit, credit_after_top_up, debit_credit, top_up_credit};
use crate::provisioning::{ProvisioningRequest, ProvisioningView};
use crate::record::{TokenArgs, TokenArgsView};

verus! {

/// The mathematical content of a factory's configuration.
pub struct ConfigView {
    /// The factory's own account name.
    pub account_id: Seq<char>,
    /// The size in bytes of the code that every token runs.
    pub code_size: nat,
    /// The one-time cost charged to a requester's first deposit.
    pub base_cost: u128,
}

/// The mathematical content of a creation plan.
pub struct PlanView {
    /// The requester's ledger entry after the request.
    pub credit: Option<u128>,
    /// The request to provision the token, or why there will be no token.
    pub answer: Result<ProvisioningView, FactoryError>,
}

impl ConfigView {
    /// The deposit that registering `args` requires.
    pub open spec fn required_deposit(self, args: TokenArgsView) -> nat {
        required_deposit(self.code_size, args.encoded_len())
    }

    /// What a requester with ledger entry `credit` still has to pay in
    /// before `args` can be registered.
    pub open spec fn outstanding_deposit(self, args: TokenArgsView, credit: Option<u128>) -> nat {
        outstanding_deposit(self.required_deposit(args), credit, self.base_cost as nat)
    }

    /// The name of the account that a token with this record would get.
    pub open spec fn token_account_id(self, args: TokenArgsView) -> Seq<char> {
        sub_account_id(args.token_id(), self.account_id)
    }

    /// The first reason, if any, for which `args` is not fit to be
    /// registered: a malformed owner, a supply of zero, a malformed symbol, a
    /// malformed account name for the new token.
    pub open spec fn validate(self, args: TokenArgsView) -> Result<(), FactoryError> {
        if !valid_account_id(args.owner_id) {
            Err(FactoryError::InvalidOwnerId)
        } else if args.total_supply == 0 {
            Err(FactoryError::ZeroSupply)
        } else if !valid_token_id(args.token_id()) {
            Err(FactoryError::InvalidTokenId)
        } else if !valid_account_id(self.token_account_id(args)) {
            Err(FactoryError::InvalidTokenAccountId)
        } else {
            Ok(())
        }
    }

    /// The requester's ledger entry after the payment attached to a request
    /// was taken in. Without a payment it is as before.
    pub open spec fn take_payment(self, credit: Option<u128>, attached: u128) -> Result<
        Option<u128>,
        FactoryError,
    > {
        if attached > 0 {
            match credit_after_top_up(credit, self.base_cost, attached) {
                Ok(c) => Ok(Some(c)),
                Err(e) => Err(e),
            }
        } else {
            Ok(credit)
        }
    }

    /// The plan of a creation, for a requester whose ledger entry is
    /// `credit`, who attached `attached`, and whose token identifier is or is
    /// not taken. A request is validated, priced and funded, and its
    /// identifier must be free, in this order; the first step that fails
    /// ends it:
    ///
    /// - a request that is not valid, or whose attached payment is rejected,
    ///   leaves the entry as it was;
    /// - a request that the credit does not cover, or whose identifier is
    ///   taken, leaves the attached payment credited and is not charged;
    /// - every other request is charged the required deposit, and is
    ///   answered with the request to provision the token.
    pub open spec fn plan(
        self,
        args: TokenArgsView,
        credit: Option<u128>,
        attached: u128,
        id_taken: bool,
    ) -> PlanView {
        match self.validate(args) {
            Err(e) => PlanView { credit, answer: Err(e) },
            Ok(_) => match self.take_payment(credit, attached) {
                Err(e) => PlanView { credit, answer: Err(e) },
                Ok(funded) => match credit_after_debit(funded, self.required_deposit(args)) {
                    Err(e) => PlanView { credit: funded, answer: Err(e) },
                    Ok(charged) => if id_taken {
                        PlanView { credit: funded, answer: Err(FactoryError::DuplicateTokenId) }
                    } else {
                        PlanView {
                            credit: Some(charged),
                            answer: Ok(
                                ProvisioningView {
                                    account_id: self.token_account_id(args),
                                    deposit: self.required_deposit(args),
                                    args,
                                },
                            ),
                        }
                    },
                },
            },
        }
    }
}

/// What a factory is set up with: its own account name, the size of the
/// code it deploys, and the storage that one ledger entry takes.
pub struct FactoryConfig {
    account_id: String,
    code_size: u32,
    ledger_entry_bytes: u64,
}

impl View for FactoryConfig {
    type V = ConfigView;

    closed spec fn view(&self) -> ConfigView {
        ConfigView {
            account_id: self.account_id@,
            code_size: self.code_size as nat,
            base_cost: storage_cost_of(self.ledger_entry_bytes as nat) as u128,
        }
    }
}

/// The result of planning a creation: the requester's ledger entry as it is
/// to be, and the answer to the request.
#[derive(Debug, PartialEq, Eq)]
pub struct CreationPlan {
    pub credit: Option<u128>,
    pub answer: Result<ProvisioningRequest, FactoryError>,
}

impl View for CreationPlan {
    type V = PlanView;

    open spec fn view(&self) -> PlanView {
        PlanView {
            credit: self.credit,
            answer: match self.answer {
                Ok(request) => Ok(request@),
                Err(e) => Err(e),
            },
        }
    }
}

/// The price of as many bytes as a 64-bit number can count fits in 128 bits.
proof fn lemma_storage_cost_fits(bytes: u64)
    ensures
        storage_cost_of(bytes as nat) <= storage_cost_of(u64::MAX as nat) < u128::MAX,
{
    assert(bytes * STORAGE_PRICE_PER_BYTE <= u64::MAX * STORAGE_PRICE_PER_BYTE)
        by (nonlinear_arith)
        requires
            bytes <= u64::MAX,
    ;
}

impl FactoryConfig {
    /// The configuration of a factory that runs as `account_id` and deploys
    /// code of `code_size` bytes, where one ledger entry was measured to take
    /// `ledger_entry_bytes` bytes of storage: their price is what a first
    /// deposit is charged.
    pub fn new(account_id: String, code_size: u32, ledger_entry_bytes: u64) -> (config: FactoryConfig)
        ensures
            config@ == (ConfigView {
                account_id: account_id@,
                code_size: code_size as nat,
                base_cost: storage_cost_of(ledger_entry_bytes as nat) as u128,
            }),
            config@.base_cost == storage_cost_of(ledger_entry_bytes as nat),
    {
        proof {
            lemma_storage_cost_fits(ledger_entry_bytes);
        }
        FactoryConfig { account_id, code_size, ledger_entry_bytes }
    }

    /// The factory's own account name.
    pub fn account_id(&self) -> (account_id: &String)
        ensures
            account_id@ == self@.account_id,
    {
        &self.account_id
    }

    /// The size in bytes of the code that every token runs.
    pub fn code_size(&self) -> (code_size: u32)
        ensures
            code_size == self@.code_size,
    {
        self.code_size
    }

    /// The one-time cost charged to a requester's first deposit.
    pub fn base_cost(&self) -> (cost: u128)
        ensures
            cost == self@.base_cost,
    {
        proof {
            lemma_storage_cost_fits(self.ledger_entry_bytes);
        }
        storage_cost(self.ledger_entry_bytes)
    }

    /// The deposit that registering `args` requires.
    pub fn required_deposit(&self, args: &TokenArgs) -> (deposit: u128)
        ensures
            deposit == self@.required_deposit(args@),
    {
        required_deposit_for(self.code_size, args)
    }

    /// What a requester with ledger entry `credit` still has to pay in
    /// before `args` can be registered.
    pub fn outstanding_deposit(&self, args: &TokenArgs, credit: Option<u128>) -> (deposit: u128)
        ensures
            deposit == self@.outstanding_deposit(args@, credit),
    {
        let required = required_deposit_for(self.code_size, args);
        match credit {
            Some(c) => if required >= c {
                required - c
            } else {
                0
            },
            None => {
                proof {
                    lemma_storage_cost_fits(self.ledger_entry_bytes);
                }
                self.base_cost() + required
            },
        }
    }

    /// Checks a record before anything is changed, and names the token: on
    /// success the token's identifier and the name of its account.
    pub fn validate(&self, args: &TokenArgs) -> (checked: Result<(String, String), FactoryError>)
        ensures
            match self@.validate(args@) {
                Ok(_) => checked matches Ok(names) && names.0@ == args@.token_id() && names.1@
                    == self@.token_account_id(args@),
                Err(e) => checked matches Err(x) && x == e,
            },
    {
        if !is_valid_account_id(args.owner_id().as_str()) {
            return Err(FactoryError::InvalidOwnerId);
        }
        if args.total_supply() == 0 {
            return Err(FactoryError::ZeroSupply);
        }
        let token_id = token_id_of_symbol(args.metadata().symbol.as_str());
        if !is_valid_token_id(&token_id) {
            return Err(FactoryError::InvalidTokenId);
        }
        let account_id = token_account_id(token_id.as_str(), self.account_id.as_str());
        if !is_valid_account_id(account_id.as_str()) {
            return Err(FactoryError::InvalidTokenAccountId);
        }
        Ok((token_id, account_id))
    }

    /// Plans the creation of the token described by `args`, for a requester
    /// whose ledger entry is `credit` and who attached `attached_deposit`.
    /// `id_taken` says whether the token's identifier is registered already.
    /// Nothing is changed: the plan says what the ledger entry becomes and
    /// how the request is answered.
    pub fn plan_creation(
        &self,
        args: TokenArgs,
        credit: Option<u128>,
        attached_deposit: u128,
        id_taken: bool,
    ) -> (plan: CreationPlan)
        ensures
            plan@ == self@.plan(args@, credit, attached_deposit, id_taken),
    {
        let account_id = match self.validate(&args) {
            Ok(names) => names.1,
            Err(e) => {
                return CreationPlan { credit, answer: Err(e) };
            },
        };
        let funded = if attached_deposit > 0 {
            match top_up_credit(credit, self.base_cost(), attached_deposit) {
                Ok(c) => Some(c),
                Err(e) => {
                    return CreationPlan { credit, answer: Err(e) };
                },
            }
        } else {
            credit
        };
        let required = self.required_deposit(&args);
        match debit_credit(funded, required) {
            Err(e) => CreationPlan { credit: funded, answer: Err(e) },
            Ok(charged) => if id_taken {
                CreationPlan { credit: funded, answer: Err(FactoryError::DuplicateTokenId) }
            } else {
                CreationPlan {
                    credit: Some(charged),
                    answer: Ok(ProvisioningRequest::new(account_id, required, args)),
                }
            },
        }
    }
}

} // verus!
