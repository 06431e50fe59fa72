//! A factory as it is deployed: set up once, then in service.

use vstd::prelude::*;
use crate::error::FactoryError;
use crate::config::ConfigView;
use crate::factory::{FactoryView, TokenFactory};
use crate::provisioning::ProvisioningRequest;
use crate::ledger::top_up_outcome;
use crate::record::TokenArgs;
use crate::cost::storage_cost_of;

verus! {

/// The place of a factory's state: vacant until the factory is set up, and
/// never vacant again.
pub struct Deployment {
    factory: Option<TokenFactory>,
}

impl View for Deployment {
    type V = Option<FactoryView>;

    closed spec fn view(&self) -> Option<FactoryView> {
        match self.factory {
            Some(factory) => Some(factory@),
            None => None,
        }
    }
}

impl Deployment {
    /// A deployment that was not set up yet.
    pub fn vacant() -> (deployment: Deployment)
        ensures
            deployment@ is None,
    {
        Deployment { factory: None }
    }

    /// Sets the factory up, as `TokenFactory::new` does. A deployment that was
    /// set up before refuses, and keeps its state.
    pub fn initialize(&mut self, account_id: String, code_size: u32, ledger_entry_bytes: u64) -> (done:
        Result<(), FactoryError>)
        ensures
            old(self)@ is Some ==> done == Err::<(), FactoryError>(FactoryError::AlreadyInitialized)
                && final(self)@ == old(self)@,
            old(self)@ is None ==> done is Ok && final(self)@ == Some(
                FactoryView {
                    config: ConfigView {
                        account_id: account_id@,
                        code_size: code_size as nat,
                        base_cost: storage_cost_of(ledger_entry_bytes as nat) as u128,
                    },
                    credits: Map::empty(),
                    tokens: Seq::empty(),
                },
            ),
    {
        if self.factory.is_some() {
            return Err(FactoryError::AlreadyInitialized);
        }
        self.factory = Some(TokenFactory::new(account_id, code_size, ledger_entry_bytes));
        Ok(())
    }

    /// The factory, for its queries; an error before it was set up.
    pub fn factory(&self) -> (found: Result<&TokenFactory, FactoryError>)
        ensures
            match self@ {
                Some(state) => found matches Ok(factory) && factory@ == state,
                None => found matches Err(e) && e == FactoryError::NotInitialized,
            },
    {
        match &self.factory {
            Some(factory) => Ok(factory),
            None => Err(FactoryError::NotInitialized),
        }
    }

    /// `TokenFactory::storage_deposit` on the factory; an error, and no
    /// change, before it was set up.
    pub fn storage_deposit(&mut self, account_id: &str, deposit: u128) -> (done: Result<
        (),
        FactoryError,
    >)
        ensures
            match old(self)@ {
                None => done == Err::<(), FactoryError>(FactoryError::NotInitialized) && final(self)@
                    is None,
                Some(state) => match top_up_outcome(
                    state.credits,
                    state.config.base_cost,
                    account_id@,
                    deposit,
                ) {
                    Ok(credits) => done is Ok && final(self)@ == Some(state.with_credits(credits)),
                    Err(e) => done == Err::<(), FactoryError>(e) && final(self)@ == Some(state),
                },
            },
    {
        match &mut self.factory {
            Some(factory) => factory.storage_deposit(account_id, deposit),
            None => Err(FactoryError::NotInitialized),
        }
    }

    /// `TokenFactory::create_token` on the factory; an error, and no change,
    /// before it was set up.
    pub fn create_token(&mut self, args: TokenArgs, account_id: &str, attached_deposit: u128) -> (answer:
        Result<ProvisioningRequest, FactoryError>)
        ensures
            match old(self)@ {
                None => {
                    &&& final(self)@ is None
                    &&& answer matches Err(e) && e == FactoryError::NotInitialized
                },
                Some(state) => {
                    &&& final(self)@ == Some(
                        state.create(args@, account_id@, attached_deposit).state,
                    )
                    &&& match state.create(args@, account_id@, attached_deposit).answer {
                        Ok(request) => answer matches Ok(r) && r@ == request,
                        Err(e) => answer matches Err(x) && x == e,
                    }
                },
            },
    {
        match &mut self.factory {
            Some(factory) => factory.create_token(args, account_id, attached_deposit),
            None => Err(FactoryError::NotInitialized),
        }
    }
}

} // verus!
