//! The factory: its state, its queries, and the creation transaction.

use vstd::prelude::*;
use vstd::string::*;
use crate::config::{ConfigView, FactoryConfig};
use crate::cost::storage_cost_of;
use crate::error::FactoryError;
use crate::identifier::token_id_of_symbol;
use crate::ledger::{balance_in, credit_in, top_up_outcome, Ledger};
use crate::provisioning::{ProvisioningRequest, ProvisioningView};
use crate::record::{TokenArgs, TokenArgsView};
use crate::registry::{
    distinct_ids,
    has_token,
    page_of,
    record_of,
    record_views,
    Registry,
    RegistryEntry,
};

verus! {

/// The mathematical content of a factory.
pub struct FactoryView {
    /// What the factory was set up with.
    pub config: ConfigView,
    /// The storage credit of each requester.
    pub credits: Map<Seq<char>, u128>,
    /// The registered tokens, in the order of registration.
    pub tokens: Seq<RegistryEntry>,
}

/// A state of the factory together with the answer to a creation request.
pub struct CreationOutcome {
    pub state: FactoryView,
    pub answer: Result<ProvisioningView, FactoryError>,
}

/// The credits with the entry of `who` as planned: untouched where the plan
/// has no entry for `who`.
pub open spec fn with_planned_entry(
    credits: Map<Seq<char>, u128>,
    who: Seq<char>,
    credit: Option<u128>,
) -> Map<Seq<char>, u128> {
    match credit {
        Some(c) => credits.insert(who, c),
        None => credits,
    }
}

impl FactoryView {
    /// What `who` still has to pay in before `args` can be registered.
    pub open spec fn outstanding_deposit(self, args: TokenArgsView, who: Seq<char>) -> nat {
        self.config.outstanding_deposit(args, credit_in(self.credits, who))
    }

    /// Every token is registered once, under the identifier that belongs to
    /// its record, and its record passes the validation.
    pub open spec fn registry_sound(self) -> bool {
        &&& distinct_ids(self.tokens)
        &&& forall|i: int|
            0 <= i < self.tokens.len() ==> (#[trigger] self.tokens[i]).token_id
                == self.tokens[i].record.token_id() && self.config.validate(
                self.tokens[i].record,
            ) is Ok
    }

    /// The state with other credits.
    pub open spec fn with_credits(self, credits: Map<Seq<char>, u128>) -> FactoryView {
        FactoryView { credits, ..self }
    }

    /// The creation transaction: the creation is planned for the
    /// requester's ledger entry and for the registry as it stands, the
    /// requester's entry becomes what the plan says, and the record is
    /// registered after all earlier tokens exactly when the plan answers with
    /// a provisioning request. Nothing else changes.
    pub open spec fn create(self, args: TokenArgsView, who: Seq<char>, attached: u128) -> CreationOutcome {
        let plan = self.config.plan(
            args,
            credit_in(self.credits, who),
            attached,
            has_token(self.tokens, args.token_id()),
        );
        CreationOutcome {
            state: FactoryView {
                config: self.config,
                credits: with_planned_entry(self.credits, who, plan.credit),
                tokens: if plan.answer is Ok {
                    self.tokens.push(RegistryEntry { token_id: args.token_id(), record: args })
                } else {
                    self.tokens
                },
            },
            answer: plan.answer,
        }
    }
}

/// The state of a token factory: its configuration, the ledger of storage
/// credit and the registry of tokens.
pub struct TokenFactory {
    config: FactoryConfig,
    tokens: Registry,
    storage_deposits: Ledger,
}

impl View for TokenFactory {
    type V = FactoryView;

    closed spec fn view(&self) -> FactoryView {
        FactoryView {
            config: self.config@,
            credits: self.storage_deposits@,
            tokens: self.tokens@,
        }
    }
}

impl TokenFactory {
    #[verifier::type_invariant]
    pub open spec fn well_formed(self) -> bool {
        self@.registry_sound()
    }

    /// Sets up a factory that runs as `account_id` and deploys code of
    /// `code_size` bytes. `ledger_entry_bytes` is the storage that one ledger
    /// entry was measured to take; its price is what a first deposit is
    /// charged. The ledger and the registry start empty.
    pub fn new(account_id: String, code_size: u32, ledger_entry_bytes: u64) -> (factory: TokenFactory)
        ensures
            factory@ == (FactoryView {
                config: ConfigView {
                    account_id: account_id@,
                    code_size: code_size as nat,
                    base_cost: storage_cost_of(ledger_entry_bytes as nat) as u128,
                },
                credits: Map::empty(),
                tokens: Seq::empty(),
            }),
            factory@.config.base_cost == storage_cost_of(ledger_entry_bytes as nat),
    {
        TokenFactory {
            config: FactoryConfig::new(account_id, code_size, ledger_entry_bytes),
            tokens: Registry::new(),
            storage_deposits: Ledger::new(),
        }
    }

    /// What the factory was set up with.
    pub fn config(&self) -> (config: &FactoryConfig)
        ensures
            config@ == self@.config,
    {
        &self.config
    }

    /// The one-time cost charged to a requester's first deposit.
    pub fn storage_balance_cost(&self) -> (cost: u128)
        ensures
            cost == self@.config.base_cost,
    {
        self.config.base_cost()
    }

    /// The deposit that registering `args` requires.
    pub fn get_min_attached_balance(&self, args: &TokenArgs) -> (deposit: u128)
        ensures
            deposit == self@.config.required_deposit(args@),
    {
        self.config.required_deposit(args)
    }

    /// What `account_id` still has to pay in before `args` can be
    /// registered. Nothing is changed by asking.
    pub fn get_required_deposit(&self, args: TokenArgs, account_id: String) -> (deposit: u128)
        ensures
            deposit == self@.outstanding_deposit(args@, account_id@),
    {
        let credit = self.storage_deposits.credit_of(account_id.as_str());
        self.config.outstanding_deposit(&args, credit)
    }

    /// The storage credit of `account_id`: zero when it never deposited.
    pub fn balance_of(&self, account_id: &str) -> (balance: u128)
        ensures
            balance == balance_in(self@.credits, account_id@),
    {
        self.storage_deposits.balance_of(account_id)
    }

    /// Credits a deposit of `deposit` to `account_id`. A rejected deposit
    /// changes nothing.
    pub fn storage_deposit(&mut self, account_id: &str, deposit: u128) -> (done: Result<
        (),
        FactoryError,
    >)
        ensures
            match top_up_outcome(
                old(self)@.credits,
                old(self)@.config.base_cost,
                account_id@,
                deposit,
            ) {
                Ok(credits) => done is Ok && final(self)@ == old(self)@.with_credits(credits),
                Err(e) => done == Err::<(), FactoryError>(e) && final(self)@ == old(self)@,
            },
    {
        proof {
            use_type_invariant(&*self);
        }
        let base_cost = self.config.base_cost();
        let mut ledger = Ledger::new();
        std::mem::swap(&mut ledger, &mut self.storage_deposits);
        let done = ledger.top_up(account_id, deposit, base_cost);
        self.storage_deposits = ledger;
        done
    }

    /// The number of registered tokens.
    pub fn get_number_of_tokens(&self) -> (count: u64)
        ensures
            count == self@.tokens.len(),
    {
        self.tokens.len()
    }

    /// Copies of the records of at most `limit` tokens, starting with the
    /// token at `from_index`, in the order of registration.
    pub fn get_tokens(&self, from_index: u64, limit: u64) -> (records: Vec<TokenArgs>)
        ensures
            record_views(records@) == page_of(self@.tokens, from_index as nat, limit as nat),
    {
        self.tokens.page(from_index, limit)
    }

    /// A copy of the record registered under `token_id`.
    pub fn get_token(&self, token_id: String) -> (found: Option<TokenArgs>)
        ensures
            match found {
                Some(args) => record_of(self@.tokens, token_id@) == Some(args@),
                None => record_of(self@.tokens, token_id@) is None,
            },
    {
        self.tokens.get(token_id.as_str())
    }

    /// Runs the creation transaction for `args`, requested by `account_id`
    /// with a payment of `attached_deposit`. The state changes and the answer
    /// is given exactly as `FactoryView::create` says. On success the answer
    /// is the request to provision the new token's account, which is left to
    /// the caller: the registration stands whatever becomes of it.
    pub fn create_token(&mut self, args: TokenArgs, account_id: &str, attached_deposit: u128) -> (answer:
        Result<ProvisioningRequest, FactoryError>)
        ensures
            final(self)@ == old(self)@.create(args@, account_id@, attached_deposit).state,
            match old(self)@.create(args@, account_id@, attached_deposit).answer {
                Ok(request) => answer matches Ok(r) && r@ == request,
                Err(e) => answer matches Err(x) && x == e,
            },
    {
        proof {
            use_type_invariant(&*self);
        }
        let token_id = token_id_of_symbol(args.metadata().symbol.as_str());
        let id_taken = self.tokens.contains(token_id.as_str());
        let credit = self.storage_deposits.credit_of(account_id);
        let plan = self.config.plan_creation(args, credit, attached_deposit, id_taken);
        match plan.credit {
            Some(c) => {
                let mut ledger = Ledger::new();
                std::mem::swap(&mut ledger, &mut self.storage_deposits);
                ledger.set_credit(account_id, c);
                self.storage_deposits = ledger;
            },
            None => {},
        }
        match plan.answer {
            Ok(request) => {
                let mut tokens = Registry::new();
                std::mem::swap(&mut tokens, &mut self.tokens);
                let registered = tokens.insert(token_id, request.args().clone());
                assert(registered is Ok);
                assert(tokens@.last().token_id == args@.token_id());
                proof {
                    use_type_invariant(&tokens);
                }
                self.tokens = tokens;
                Ok(request)
            },
            Err(e) => Err(e),
        }
    }
}

} // verus!
