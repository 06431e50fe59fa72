//! The request that follows a registration: to set up the token's account.

use vstd::prelude::*;
use vstd::string::*;
use crate::cost::{storage_cost, storage_cost_of};
use crate::record::{TokenArgs, TokenArgsView};

verus! {

/// The name of the entry point that initializes a deployed token.
pub const INIT_METHOD: &'static str = "new";

/// The gas handed to the initialization of a deployed token.
pub const INIT_GAS: u64 = 50_000_000_000_000;

/// The mathematical content of a provisioning request.
pub struct ProvisioningView {
    /// The account to create for the token.
    pub account_id: Seq<char>,
    /// The deposit that the requester was charged.
    pub deposit: nat,
    /// The record that the new token is initialized with.
    pub args: TokenArgsView,
}

/// What is left to do after a token was registered: create its account, fund
/// it, deploy the token's code there and initialize it with the record. The
/// factory hands this out and never learns how it went.
#[derive(Debug, PartialEq, Eq)]
pub struct ProvisioningRequest {
    account_id: String,
    deposit: u128,
    args: TokenArgs,
}

impl View for ProvisioningRequest {
    type V = ProvisioningView;

    closed spec fn view(&self) -> ProvisioningView {
        ProvisioningView {
            account_id: self.account_id@,
            deposit: self.deposit as nat,
            args: self.args@,
        }
    }
}

/// The balance to forward to a new token's account: what is left of the
/// deposit after the storage that the registration took up is paid for.
pub open spec fn forwarded_balance(deposit: nat, storage_bytes_used: nat) -> Option<nat> {
    if storage_cost_of(storage_bytes_used) <= deposit {
        Some((deposit - storage_cost_of(storage_bytes_used)) as nat)
    } else {
        None
    }
}

impl ProvisioningRequest {
    /// A request to set up `account_id` for the token described by `args`,
    /// whose registration was charged `deposit`.
    pub fn new(account_id: String, deposit: u128, args: TokenArgs) -> (request: ProvisioningRequest)
        ensures
            request@ == (ProvisioningView {
                account_id: account_id@,
                deposit: deposit as nat,
                args: args@,
            }),
    {
        ProvisioningRequest { account_id, deposit, args }
    }

    /// The account to create for the token.
    pub fn account_id(&self) -> (account_id: &String)
        ensures
            account_id@ == self@.account_id,
    {
        &self.account_id
    }

    /// The deposit that the requester was charged.
    pub fn deposit(&self) -> (deposit: u128)
        ensures
            deposit == self@.deposit,
    {
        self.deposit
    }

    /// The record that the new token is initialized with.
    pub fn args(&self) -> (args: &TokenArgs)
        ensures
            args@ == self@.args,
    {
        &self.args
    }

    /// The balance to forward to the new account, given the number of bytes
    /// by which the registration was measured to grow the storage; `None`
    /// when these cost more than the deposit.
    pub fn initial_balance(&self, storage_bytes_used: u64) -> (balance: Option<u128>)
        ensures
            match forwarded_balance(self@.deposit, storage_bytes_used as nat) {
                Some(b) => balance == Some(b as u128) && b <= u128::MAX,
                None => balance is None,
            },
    {
        let used = storage_cost(storage_bytes_used);
        if used <= self.deposit {
            Some(self.deposit - used)
        } else {
            None
        }
    }
}

} // verus!
