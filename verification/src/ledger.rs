//! The ledger of prepaid storage credit, one entry per requester.

use vstd::prelude::*;
use vstd::hash_map::StringHashMap;
use vstd::string::*;
use crate::error::FactoryError;

verus! {

/// The credit of an entry after a deposit of `amount`. A requester with an
/// entry is credited the whole amount. A first deposit must cover
/// `base_cost`, and opens an entry with what is left after it.
pub open spec fn credit_after_top_up(credit: Option<u128>, base_cost: u128, amount: u128) -> Result<
    u128,
    FactoryError,
> {
    match credit {
        Some(c) => if c + amount <= u128::MAX {
            Ok((c + amount) as u128)
        } else {
            Err(FactoryError::CreditOverflow)
        },
        None => if amount >= base_cost {
            Ok((amount - base_cost) as u128)
        } else {
            Err(FactoryError::DepositTooLow)
        },
    }
}

/// The credit of an entry after a charge of `amount`: less by `amount` when
/// there is an entry that covers it; nothing else is ever accepted.
pub open spec fn credit_after_debit(credit: Option<u128>, amount: nat) -> Result<u128, FactoryError> {
    match credit {
        Some(c) => if c >= amount {
            Ok((c - amount) as u128)
        } else {
            Err(FactoryError::InsufficientCredit)
        },
        None => Err(FactoryError::InsufficientCredit),
    }
}

/// Decides a deposit of `amount` into an entry with credit `credit`.
pub fn top_up_credit(credit: Option<u128>, base_cost: u128, amount: u128) -> (after: Result<
    u128,
    FactoryError,
>)
    ensures
        after == credit_after_top_up(credit, base_cost, amount),
{
    match credit {
        Some(c) => match c.checked_add(amount) {
            Some(sum) => Ok(sum),
            None => Err(FactoryError::CreditOverflow),
        },
        None => if amount >= base_cost {
            Ok(amount - base_cost)
        } else {
            Err(FactoryError::DepositTooLow)
        },
    }
}

/// Decides a charge of `amount` to an entry with credit `credit`.
pub fn debit_credit(credit: Option<u128>, amount: u128) -> (after: Result<u128, FactoryError>)
    ensures
        after == credit_after_debit(credit, amount as nat),
{
    match credit {
        Some(c) => if c >= amount {
            Ok(c - amount)
        } else {
            Err(FactoryError::InsufficientCredit)
        },
        None => Err(FactoryError::InsufficientCredit),
    }
}

/// The credit recorded for `who`, if `who` has an entry.
pub open spec fn credit_in(credits: Map<Seq<char>, u128>, who: Seq<char>) -> Option<u128> {
    if credits.contains_key(who) {
        Some(credits[who])
    } else {
        None
    }
}

/// The balance of `who`: the recorded credit, or zero without an entry.
pub open spec fn balance_in(credits: Map<Seq<char>, u128>, who: Seq<char>) -> nat {
    match credit_in(credits, who) {
        Some(c) => c as nat,
        None => 0,
    }
}

/// The credits after the entry of `who` was decided: with the new credit
/// when the request was accepted, and the error otherwise.
pub open spec fn with_entry(
    credits: Map<Seq<char>, u128>,
    who: Seq<char>,
    decided: Result<u128, FactoryError>,
) -> Result<Map<Seq<char>, u128>, FactoryError> {
    match decided {
        Ok(credit) => Ok(credits.insert(who, credit)),
        Err(e) => Err(e),
    }
}

/// What a deposit of `amount` by `who` leads to.
pub open spec fn top_up_outcome(
    credits: Map<Seq<char>, u128>,
    base_cost: u128,
    who: Seq<char>,
    amount: u128,
) -> Result<Map<Seq<char>, u128>, FactoryError> {
    with_entry(credits, who, credit_after_top_up(credit_in(credits, who), base_cost, amount))
}

/// What charging `amount` to `who` leads to.
pub open spec fn debit_outcome(credits: Map<Seq<char>, u128>, who: Seq<char>, amount: nat) -> Result<
    Map<Seq<char>, u128>,
    FactoryError,
> {
    with_entry(credits, who, credit_after_debit(credit_in(credits, who), amount))
}

/// One request to the ledger.
pub enum LedgerOp {
    /// A deposit of `amount` by `who`.
    TopUp { who: Seq<char>, amount: u128 },
    /// A charge of `amount` to `who`.
    Debit { who: Seq<char>, amount: u128 },
}

/// The credits after one request: as the request's outcome says when it is
/// accepted, unchanged when it is rejected.
pub open spec fn apply_op(credits: Map<Seq<char>, u128>, base_cost: u128, op: LedgerOp) -> Map<
    Seq<char>,
    u128,
> {
    let outcome = match op {
        LedgerOp::TopUp { who, amount } => top_up_outcome(credits, base_cost, who, amount),
        LedgerOp::Debit { who, amount } => debit_outcome(credits, who, amount as nat),
    };
    match outcome {
        Ok(after) => after,
        Err(_) => credits,
    }
}

/// The credits of a ledger that started empty and served `ops` in order.
pub open spec fn credits_after(base_cost: u128, ops: Seq<LedgerOp>) -> Map<Seq<char>, u128>
    decreases ops.len(),
{
    if ops.len() == 0 {
        Map::empty()
    } else {
        apply_op(credits_after(base_cost, ops.drop_last()), base_cost, ops.last())
    }
}

/// By how much a request moves the balance of `who`, as an integer: up by
/// an accepted deposit (less the one-time cost when it opens the entry), down
/// by an accepted charge, and not at all otherwise.
pub open spec fn balance_change(
    credits: Map<Seq<char>, u128>,
    base_cost: u128,
    op: LedgerOp,
    who: Seq<char>,
) -> int {
    match op {
        LedgerOp::TopUp { who: payer, amount } => if payer == who && top_up_outcome(
            credits,
            base_cost,
            payer,
            amount,
        ) is Ok {
            if credits.contains_key(payer) {
                amount as int
            } else {
                amount - base_cost
            }
        } else {
            0
        },
        LedgerOp::Debit { who: payer, amount } => if payer == who && debit_outcome(
            credits,
            payer,
            amount as nat,
        ) is Ok {
            -(amount as int)
        } else {
            0
        },
    }
}

/// The sum of the changes that `ops`, served in order by a ledger that
/// started empty, made to the balance of `who`.
pub open spec fn net_change(base_cost: u128, ops: Seq<LedgerOp>, who: Seq<char>) -> int
    decreases ops.len(),
{
    if ops.len() == 0 {
        0
    } else {
        net_change(base_cost, ops.drop_last(), who) + balance_change(
            credits_after(base_cost, ops.drop_last()),
            base_cost,
            ops.last(),
            who,
        )
    }
}

/// Prepaid storage credit per requester. An entry is opened by the first
/// deposit and stays, also with a credit of zero.
pub struct Ledger {
    credits: StringHashMap<u128>,
}

impl View for Ledger {
    type V = Map<Seq<char>, u128>;

    closed spec fn view(&self) -> Map<Seq<char>, u128> {
        self.credits@
    }
}

impl Ledger {
    /// A ledger without entries.
    pub fn new() -> (ledger: Ledger)
        ensures
            ledger@ == Map::<Seq<char>, u128>::empty(),
    {
        Ledger { credits: StringHashMap::new() }
    }

    /// The credit of `account_id`, or `None` when it has no entry.
    pub fn credit_of(&self, account_id: &str) -> (credit: Option<u128>)
        ensures
            credit == credit_in(self@, account_id@),
    {
        match self.credits.get(account_id) {
            Some(c) => Some(*c),
            None => None,
        }
    }

    /// The balance of `account_id`: zero when it has no entry.
    pub fn balance_of(&self, account_id: &str) -> (balance: u128)
        ensures
            balance == balance_in(self@, account_id@),
    {
        match self.credits.get(account_id) {
            Some(c) => *c,
            None => 0,
        }
    }

    /// Records `credit` as the credit of `account_id`.
    pub(crate) fn set_credit(&mut self, account_id: &str, credit: u128)
        ensures
            final(self)@ == old(self)@.insert(account_id@, credit),
    {
        self.credits.insert(String::from_str(account_id), credit);
    }

    /// Credits a deposit of `amount` to `account_id`, where a first deposit
    /// is charged `base_cost`. The ledger changes as `top_up_outcome` says,
    /// and stays as it was when the deposit is rejected.
    pub fn top_up(&mut self, account_id: &str, amount: u128, base_cost: u128) -> (done: Result<
        (),
        FactoryError,
    >)
        ensures
            match top_up_outcome(old(self)@, base_cost, account_id@, amount) {
                Ok(credits) => done is Ok && final(self)@ == credits,
                Err(e) => done == Err::<(), FactoryError>(e) && final(self)@ == old(self)@,
            },
    {
        match top_up_credit(self.credit_of(account_id), base_cost, amount) {
            Ok(credit) => {
                self.set_credit(account_id, credit);
                Ok(())
            },
            Err(e) => Err(e),
        }
    }

    /// Charges `amount` to `account_id`. The ledger changes as
    /// `debit_outcome` says: a charge that the credit does not cover is
    /// rejected and leaves every balance as it was.
    pub fn debit(&mut self, account_id: &str, amount: u128) -> (done: Result<(), FactoryError>)
        ensures
            match debit_outcome(old(self)@, account_id@, amount as nat) {
                Ok(credits) => done is Ok && final(self)@ == credits,
                Err(e) => done == Err::<(), FactoryError>(e) && final(self)@ == old(self)@,
            },
    {
        match debit_credit(self.credit_of(account_id), amount) {
            Ok(credit) => {
                self.set_credit(account_id, credit);
                Ok(())
            },
            Err(e) => Err(e),
        }
    }
}

} // verus!
