//! What holds of the factory whatever the requests are.

use vstd::prelude::*;
use crate::config::ConfigView;
use crate::error::FactoryError;
use crate::factory::FactoryView;
use crate::identifier::{is_lower_alnum, is_separator, valid_account_id, valid_token_id};
use crate::ledger::{
    apply_op,
    balance_in,
    credit_in,
    credits_after,
    debit_outcome,
    net_change,
    top_up_outcome,
    LedgerOp,
};
use crate::record::TokenArgsView;
use crate::registry::{has_token, page_of, record_of, RegistryEntry};

verus! {

/// A token identifier with any character other than a lower-case letter or
/// a digit is rejected.
pub proof fn law_token_id_rejections(s: Seq<char>, i: int)
    requires
        0 <= i < s.len(),
        !is_lower_alnum(s[i]),
    ensures
        !valid_token_id(s),
{
}

/// An account name is rejected when it has fewer than 2 or more than 64
/// characters, when it starts or ends with a separator, and when two
/// separators stand side by side in it.
pub proof fn law_account_id_rejections(s: Seq<char>)
    requires
        s.len() < 2 || s.len() > 64 || is_separator(s[0]) || is_separator(s[s.len() - 1]) || (exists|
            i: int,
        |
            0 < i < s.len() && is_separator(s[i - 1]) && is_separator(#[trigger] s[i])),
    ensures
        !valid_account_id(s),
{
}

/// A ledger that starts empty never shows a negative balance: after any
/// requests, the balance of a requester is exactly the sum of the changes
/// that the accepted ones made to it, and that sum is not below zero.
pub proof fn law_ledger_never_negative(base_cost: u128, ops: Seq<LedgerOp>, who: Seq<char>)
    ensures
        balance_in(credits_after(base_cost, ops), who) == net_change(base_cost, ops, who),
        net_change(base_cost, ops, who) >= 0,
    decreases ops.len(),
{
    if ops.len() > 0 {
        law_ledger_never_negative(base_cost, ops.drop_last(), who);
    }
}

/// An entry, once opened, stays: no request removes a requester from the
/// ledger, whether it is accepted or not and whatever it leaves of the
/// credit.
pub proof fn law_ledger_entries_stay(
    base_cost: u128,
    credits: Map<Seq<char>, u128>,
    op: LedgerOp,
    who: Seq<char>,
)
    requires
        credits.contains_key(who),
    ensures
        apply_op(credits, base_cost, op).contains_key(who),
{
}

/// A charge that exceeds the balance is rejected, and every balance stays as
/// it was.
pub proof fn law_overdraft_rejected(
    base_cost: u128,
    credits: Map<Seq<char>, u128>,
    who: Seq<char>,
    amount: u128,
)
    requires
        amount > balance_in(credits, who),
    ensures
        debit_outcome(credits, who, amount as nat) == Err::<Map<Seq<char>, u128>, FactoryError>(
            FactoryError::InsufficientCredit,
        ),
        apply_op(credits, base_cost, LedgerOp::Debit { who, amount }) == credits,
{
}

/// The amount still to pay for a record depends on nothing but the
/// configuration, the record and the requester's own ledger entry: two
/// states that agree on these give the same answer.
pub proof fn law_pricing_is_determined(
    a: FactoryView,
    b: FactoryView,
    args: TokenArgsView,
    who: Seq<char>,
)
    requires
        a.config == b.config,
        credit_in(a.credits, who) == credit_in(b.credits, who),
    ensures
        a.outstanding_deposit(args, who) == b.outstanding_deposit(args, who),
{
}

/// Once a token is registered, a second request under the same identifier
/// fails, whoever makes it and whatever it attaches: the registry stays as
/// the first request left it, the identifier still leads to the first
/// record, and nobody is charged. All that can change is the second
/// requester's credit, by the payment that came with the request.
pub proof fn law_registry_uniqueness(
    state: FactoryView,
    first: TokenArgsView,
    first_who: Seq<char>,
    first_attached: u128,
    second: TokenArgsView,
    second_who: Seq<char>,
    second_attached: u128,
)
    requires
        state.create(first, first_who, first_attached).answer is Ok,
        second.token_id() == first.token_id(),
    ensures
        ({
            let registered = state.create(first, first_who, first_attached).state;
            let after = registered.create(second, second_who, second_attached);
            &&& after.answer is Err
            &&& after.state.tokens == registered.tokens
            &&& record_of(after.state.tokens, first.token_id()) == Some(first)
            &&& (after.state.credits == registered.credits || top_up_outcome(
                registered.credits,
                registered.config.base_cost,
                second_who,
                second_attached,
            ) == Ok::<Map<Seq<char>, u128>, FactoryError>(after.state.credits))
            &&& forall|who: Seq<char>|
                balance_in(after.state.credits, who) >= balance_in(registered.credits, who)
        }),
{
    let registered = state.create(first, first_who, first_attached).state;
    let after = registered.create(second, second_who, second_attached);
    let entry = RegistryEntry { token_id: first.token_id(), record: first };
    assert(registered.tokens == state.tokens.push(entry));
    assert(registered.tokens[state.tokens.len() as int] == entry);
    assert(has_token(registered.tokens, first.token_id()));
    assert(!has_token(state.tokens, first.token_id()));
    assert forall|i: int|
        0 <= i < registered.tokens.len() && (#[trigger] registered.tokens[i]).token_id
            == first.token_id() implies i == state.tokens.len() by {
        if i < state.tokens.len() {
            assert(state.tokens[i].token_id == first.token_id());
        }
    }
    let credit = credit_in(registered.credits, second_who);
    let plan = registered.config.plan(second, credit, second_attached, true);
    if plan.credit == credit {
        assert(after.state.credits =~= registered.credits);
    }
}

/// The registry only grows, and stays sound: a creation leaves every
/// registered token where it was, adds at most the one it was asked for, and
/// keeps each token under the identifier of its own valid record, no
/// identifier twice.
pub proof fn law_registry_is_append_only(
    state: FactoryView,
    args: TokenArgsView,
    who: Seq<char>,
    attached: u128,
)
    requires
        state.registry_sound(),
    ensures
        ({
            let after = state.create(args, who, attached);
            &&& after.state.registry_sound()
            &&& after.state.config == state.config
            &&& state.tokens.is_prefix_of(after.state.tokens)
            &&& after.state.tokens.len() == state.tokens.len() + (if after.answer is Ok {
                1nat
            } else {
                0nat
            })
            &&& after.answer is Ok ==> after.state.tokens.last() == (RegistryEntry {
                token_id: args.token_id(),
                record: args,
            })
        }),
{
    let after = state.create(args, who, attached);
    if after.answer is Ok {
        let entry = RegistryEntry { token_id: args.token_id(), record: args };
        assert(!has_token(state.tokens, args.token_id()));
        assert forall|i: int, j: int| 0 <= i < j < after.state.tokens.len() implies (
        #[trigger] after.state.tokens[i]).token_id != (#[trigger] after.state.tokens[j]).token_id by {
            if j == state.tokens.len() {
                assert(state.tokens[i].token_id != args.token_id());
            } else {
                assert(state.tokens[i].token_id != state.tokens[j].token_id);
            }
        }
        assert forall|i: int| 0 <= i < after.state.tokens.len() implies (
        #[trigger] after.state.tokens[i]).token_id == after.state.tokens[i].record.token_id()
            && after.state.config.validate(after.state.tokens[i].record) is Ok by {
            if i < state.tokens.len() {
                assert(after.state.tokens[i] == state.tokens[i]);
            }
        }
    }
}

/// A creation that succeeds is paid for: the request was valid and its
/// identifier free, the requester's balance covered the required deposit
/// after the attached payment was taken in, and went down by exactly that
/// deposit. No other requester's entry is touched.
pub proof fn law_creation_is_paid_for(
    state: FactoryView,
    args: TokenArgsView,
    who: Seq<char>,
    attached: u128,
)
    requires
        state.create(args, who, attached).answer is Ok,
    ensures
        ({
            let after = state.create(args, who, attached);
            let required = state.config.required_deposit(args);
            let paid_in: int = if attached == 0 {
                0
            } else if state.credits.contains_key(who) {
                attached as int
            } else {
                attached - state.config.base_cost
            };
            &&& state.config.validate(args) is Ok
            &&& !has_token(state.tokens, args.token_id())
            &&& after.answer->Ok_0.deposit == required
            &&& balance_in(state.credits, who) + paid_in >= required
            &&& balance_in(after.state.credits, who) == balance_in(state.credits, who) + paid_in
                - required
            &&& forall|other: Seq<char>|
                other != who ==> credit_in(after.state.credits, other) == credit_in(
                    state.credits,
                    other,
                )
        }),
{
}

/// A creation that fails registers nothing and charges nobody: the registry
/// is as before, no balance is lower than before, and no entry but the
/// requester's is touched.
pub proof fn law_failed_creation_charges_nothing(
    state: FactoryView,
    args: TokenArgsView,
    who: Seq<char>,
    attached: u128,
)
    requires
        state.create(args, who, attached).answer is Err,
    ensures
        ({
            let after = state.create(args, who, attached);
            &&& after.state.tokens == state.tokens
            &&& after.state.config == state.config
            &&& balance_in(after.state.credits, who) >= balance_in(state.credits, who)
            &&& attached == 0 ==> after.state == state
            &&& forall|other: Seq<char>|
                other != who ==> credit_in(after.state.credits, other) == credit_in(
                    state.credits,
                    other,
                )
        }),
{
    let after = state.create(args, who, attached);
    if attached == 0 {
        assert(after.state.credits =~= state.credits);
    }
}

/// A request for a token with no supply fails its validation: the state is
/// left untouched, so no payment is taken in and nothing is charged.
pub proof fn law_zero_supply_changes_nothing(
    state: FactoryView,
    args: TokenArgsView,
    who: Seq<char>,
    attached: u128,
)
    requires
        args.total_supply == 0,
    ensures
        state.create(args, who, attached).state == state,
        state.create(args, who, attached).answer is Err,
        (state.create(args, who, attached).answer->Err_0 == FactoryError::ZeroSupply
            || state.create(args, who, attached).answer->Err_0 == FactoryError::InvalidOwnerId),
{
    assert(state.create(args, who, attached).state.credits =~= state.credits);
}

/// A requester who deposits `payment` into a factory that was just set up,
/// and then asks for a valid record whose required deposit the remaining
/// credit covers, gets the token: the registry holds this one record, the
/// identifier leads to it, and the requester's balance went down by exactly
/// the required deposit.
pub proof fn law_funded_creation_succeeds(
    config: ConfigView,
    who: Seq<char>,
    payment: u128,
    args: TokenArgsView,
)
    requires
        payment >= config.base_cost,
        config.validate(args) is Ok,
        config.required_deposit(args) <= payment - config.base_cost,
    ensures
        ({
            let fresh = FactoryView { config, credits: Map::empty(), tokens: Seq::empty() };
            let deposited = top_up_outcome(fresh.credits, config.base_cost, who, payment);
            let funded = fresh.with_credits(deposited->Ok_0);
            let created = funded.create(args, who, 0);
            &&& deposited is Ok
            &&& balance_in(funded.credits, who) == payment - config.base_cost
            &&& created.answer is Ok
            &&& created.answer->Ok_0.deposit == config.required_deposit(args)
            &&& created.state.tokens.len() == 1
            &&& record_of(created.state.tokens, args.token_id()) == Some(args)
            &&& balance_in(created.state.credits, who) == balance_in(funded.credits, who)
                - config.required_deposit(args)
        }),
{
    let fresh = FactoryView {
        config,
        credits: Map::<Seq<char>, u128>::empty(),
        tokens: Seq::<RegistryEntry>::empty(),
    };
    let deposited = top_up_outcome(fresh.credits, config.base_cost, who, payment);
    let funded = fresh.with_credits(deposited->Ok_0);
    let created = funded.create(args, who, 0);
    assert(!has_token(funded.tokens, args.token_id()));
    let entry = RegistryEntry { token_id: args.token_id(), record: args };
    assert(created.state.tokens == funded.tokens.push(entry));
    assert(created.state.tokens[0] == entry);
    assert(has_token(created.state.tokens, args.token_id()));
}

/// A page that starts at or past the end of the registry is empty. A page
/// that starts inside it and whose limit reaches the end holds exactly the
/// remaining records, and any other page exactly `limit` records, all in
/// the order of registration.
pub proof fn law_pagination(entries: Seq<RegistryEntry>, from: nat, limit: nat)
    ensures
        from >= entries.len() ==> page_of(entries, from, limit) == Seq::<TokenArgsView>::empty(),
        from < entries.len() && from + limit >= entries.len() ==> page_of(entries, from, limit)
            == entries.subrange(from as int, entries.len() as int).map_values(
            |e: RegistryEntry| e.record,
        ),
        from + limit <= entries.len() ==> page_of(entries, from, limit) == entries.subrange(
            from as int,
            (from + limit) as int,
        ).map_values(|e: RegistryEntry| e.record),
{
    if from >= entries.len() {
        assert(page_of(entries, from, limit) =~= Seq::<TokenArgsView>::empty());
    }
    if from < entries.len() && from + limit >= entries.len() {
        assert(page_of(entries, from, limit) =~= entries.subrange(
            from as int,
            entries.len() as int,
        ).map_values(|e: RegistryEntry| e.record));
    }
    if from + limit <= entries.len() {
        assert(page_of(entries, from, limit) =~= entries.subrange(
            from as int,
            (from + limit) as int,
        ).map_values(|e: RegistryEntry| e.record));
    }
}

} // verus!
