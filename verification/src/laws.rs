//! What holds of the ledger whatever is replayed onto it.

use crate::amount::{lemma_units_sign, Amount};
use crate::ledger::{Ledger, Operation};
use crate::types::{Account, ClientId, DisputeState, Error, TxId, TxType};
use vstd::prelude::*;

verus! {

/// Every operation of a sequence carries an amount of zero or more.
pub open spec fn all_wf(ops: Seq<Operation>) -> bool {
    forall|i: int| 0 <= i < ops.len() ==> (#[trigger] ops[i]).wf()
}

/// The sum has a representation and is exact: no digit was rounded away.
pub open spec fn exact_sum(a: Amount, b: Amount) -> bool {
    a.sum_of(b) is Some && a.sum_of(b).unwrap().units() == a.units() + b.units()
}

/// The difference has a representation and is exact.
pub open spec fn exact_difference(a: Amount, b: Amount) -> bool {
    a.difference_of(b) is Some && a.difference_of(b).unwrap().units() == a.units() - b.units()
}

/// The sum or difference of two amounts, where there is one, is an amount.
pub proof fn lemma_results_are_amounts(a: Amount, b: Amount)
    requires
        a.wf(),
        b.wf(),
    ensures
        a.sum_of(b) is Some ==> a.sum_of(b).unwrap().wf(),
        a.difference_of(b) is Some ==> a.difference_of(b).unwrap().wf(),
{
}

/// The account of every client, seen or not, is well-formed in a well-formed
/// ledger and carries the client's id.
pub proof fn lemma_account_wf(l: Ledger, client: ClientId)
    requires
        l.wf(),
    ensures
        l.account(client).wf(),
        l.account(client).id == client,
{
}

/// New balances that make an account make a well-formed one.
pub proof fn lemma_with_balances_wf(
    a: Account,
    available: Option<Amount>,
    held: Option<Amount>,
    locked: bool,
)
    requires
        available is Some ==> available.unwrap().wf(),
        held is Some ==> held.unwrap().wf(),
    ensures
        match a.with_balances(available, held, locked) {
            Some(b) => b.wf() && b.id == a.id && b.locked == locked && Some(b.available)
                == available && Some(b.held) == held,
            None => true,
        },
{
}

/// One operation keeps the ledger well-formed, whether it is applied or
/// refused.
pub proof fn operation_keeps_ledger_well_formed(l: Ledger, op: Operation)
    requires
        l.wf(),
        op.wf(),
    ensures
        l.after(op).wf(),
{
    let c = op.client();
    let a = l.account(c);
    lemma_account_wf(l, c);
    match op {
        Operation::Deposit { txid, client, amount } => {
            lemma_results_are_amounts(a.available, amount);
            lemma_with_balances_wf(a, a.available.sum_of(amount), Some(a.held), a.locked);
        },
        Operation::Withdrawal { txid, client, amount } => {
            lemma_results_are_amounts(a.available, amount);
            lemma_with_balances_wf(a, a.available.difference_of(amount), Some(a.held), a.locked);
        },
        Operation::Dispute { client, txid } => {
            if l.history.contains_key(txid) {
                let x = l.history[txid].amount;
                lemma_results_are_amounts(a.available, x);
                lemma_results_are_amounts(a.held, x);
                lemma_with_balances_wf(
                    a,
                    a.available.difference_of(x),
                    a.held.sum_of(x),
                    a.locked,
                );
            }
        },
        Operation::Resolve { client, txid } => {
            if l.history.contains_key(txid) {
                let x = l.history[txid].amount;
                lemma_results_are_amounts(a.available, x);
                lemma_results_are_amounts(a.held, x);
                lemma_with_balances_wf(
                    a,
                    a.available.sum_of(x),
                    a.held.difference_of(x),
                    a.locked,
                );
            }
        },
        Operation::Chargeback { client, txid } => {
            if l.history.contains_key(txid) {
                let x = l.history[txid].amount;
                lemma_results_are_amounts(a.held, x);
                lemma_with_balances_wf(a, Some(a.available), a.held.difference_of(x), true);
            }
        },
    }
}

/// In every state that can be reached from the empty ledger, each account
/// is well-formed and holds zero or more.
pub proof fn held_is_never_negative(ops: Seq<Operation>, client: ClientId)
    requires
        all_wf(ops),
    ensures
        Ledger::empty().replay(ops).wf(),
        Ledger::empty().replay(ops).account(client).held.is_nonneg(),
        Ledger::empty().replay(ops).account(client).held.units() >= 0,
{
    replay_keeps_ledger_well_formed(Ledger::empty(), ops);
    let l = Ledger::empty().replay(ops);
    lemma_account_wf(l, client);
    lemma_units_sign(l.account(client).held);
}

/// Replaying operations onto a well-formed ledger leaves a well-formed
/// ledger.
pub proof fn replay_keeps_ledger_well_formed(l: Ledger, ops: Seq<Operation>)
    requires
        l.wf(),
        all_wf(ops),
    ensures
        l.replay(ops).wf(),
    decreases ops.len(),
{
    if ops.len() > 0 {
        replay_keeps_ledger_well_formed(l, ops.drop_last());
        operation_keeps_ledger_well_formed(l.replay(ops.drop_last()), ops.last());
    }
}

/// The listing of the accounts below a bound holds the summary of each
/// stored account with an id below the bound, holds nothing else, and goes by
/// strictly increasing client id.
pub proof fn listing_is_complete_and_sorted(l: Ledger, bound: nat)
    requires
        l.wf(),
        bound <= ClientId::MAX as nat + 1,
    ensures
        forall|c: ClientId|
            c < bound && #[trigger] l.accounts.contains_key(c) ==> l.summaries_below(
                bound,
            ).contains(l.accounts[c].summary_of()),
        forall|i: int|
            0 <= i < l.summaries_below(bound).len() ==> {
                let s = #[trigger] l.summaries_below(bound)[i];
                &&& s.client < bound
                &&& l.accounts.contains_key(s.client)
                &&& s == l.accounts[s.client].summary_of()
            },
        forall|i: int, j: int|
            0 <= i < j < l.summaries_below(bound).len() ==> (#[trigger] l.summaries_below(
                bound,
            )[i]).client < (#[trigger] l.summaries_below(bound)[j]).client,
    decreases bound,
{
    if bound > 0 {
        let rest = l.summaries_below((bound - 1) as nat);
        let all = l.summaries_below(bound);
        let last = (bound - 1) as ClientId;
        listing_is_complete_and_sorted(l, (bound - 1) as nat);
        assert forall|c: ClientId| c < bound && #[trigger] l.accounts.contains_key(c) implies all.contains(
            l.accounts[c].summary_of(),
        ) by {
            if c == last {
                assert(all[all.len() - 1] == l.accounts[c].summary_of());
            } else {
                let i = choose|i: int| 0 <= i < rest.len() && rest[i] == l.accounts[c].summary_of();
                assert(all[i] == l.accounts[c].summary_of());
            }
        }
        assert forall|i: int| 0 <= i < all.len() implies ({
            let s = #[trigger] all[i];
            &&& s.client < bound
            &&& l.accounts.contains_key(s.client)
            &&& s == l.accounts[s.client].summary_of()
        }) by {
            if i < rest.len() {
                assert(all[i] == rest[i]);
            }
        }
        assert forall|i: int, j: int| 0 <= i < j < all.len() implies (#[trigger] all[i]).client < (
        #[trigger] all[j]).client by {
            assert(all[i] == rest[i]);
            if j < rest.len() {
                assert(all[j] == rest[j]);
            }
        }
    }
}

/// The operation keeps to the order in which the held funds can follow the
/// disputes: a dispute, resolve or chargeback names the client that owns the
/// transaction, and a deposit or withdrawal does not reuse the id of a
/// transaction that is under dispute.
pub open spec fn orderly(l: Ledger, op: Operation) -> bool {
    match op {
        Operation::Deposit { txid, .. } => !(l.history.contains_key(txid)
            && l.history[txid].dispute_state == DisputeState::Disputed),
        Operation::Withdrawal { txid, .. } => !(l.history.contains_key(txid)
            && l.history[txid].dispute_state == DisputeState::Disputed),
        Operation::Dispute { client, txid } => l.history.contains_key(txid)
            ==> l.history[txid].client == client,
        Operation::Resolve { client, txid } => l.history.contains_key(txid)
            ==> l.history[txid].client == client,
        Operation::Chargeback { client, txid } => l.history.contains_key(txid)
            ==> l.history[txid].client == client,
    }
}

/// Where the operation is applied, the sum or difference that gives the new
/// held funds is exact.
pub open spec fn held_exact(l: Ledger, op: Operation) -> bool {
    l.apply(op) is Ok ==> match op {
        Operation::Dispute { client, txid } => exact_sum(
            l.account(client).held,
            l.history[txid].amount,
        ),
        Operation::Resolve { client, txid } => exact_difference(
            l.account(client).held,
            l.history[txid].amount,
        ),
        Operation::Chargeback { client, txid } => exact_difference(
            l.account(client).held,
            l.history[txid].amount,
        ),
        _ => true,
    }
}

/// Every operation of the sequence is orderly, and exact on the held funds,
/// in the ledger that it meets.
pub open spec fn replay_is_orderly(l: Ledger, ops: Seq<Operation>) -> bool {
    forall|i: int|
        0 <= i < ops.len() ==> orderly(#[trigger] l.replay(ops.take(i)), ops[i]) && held_exact(
            l.replay(ops.take(i)),
            ops[i],
        )
}

/// Two ledgers that ask the same of a client for every transaction but one
/// differ in the client's disputed sum by what they ask for that one.
pub proof fn lemma_disputed_units_differ_at(
    l: Ledger,
    m: Ledger,
    client: ClientId,
    txid: TxId,
    bound: nat,
)
    requires
        bound <= TxId::MAX as nat + 1,
        forall|t: TxId| t != txid ==> l.held_share(client, t) == m.held_share(client, t),
    ensures
        m.disputed_units(client, bound) == l.disputed_units(client, bound) + (if txid < bound {
            m.held_share(client, txid) - l.held_share(client, txid)
        } else {
            0
        }),
    decreases bound,
{
    if bound > 0 {
        lemma_disputed_units_differ_at(l, m, client, txid, (bound - 1) as nat);
    }
}

/// The empty ledger asks no account to hold anything.
pub proof fn lemma_empty_disputed_units(client: ClientId, bound: nat)
    ensures
        Ledger::empty().disputed_units(client, bound) == 0,
    decreases bound,
{
    if bound > 0 {
        lemma_empty_disputed_units(client, (bound - 1) as nat);
    }
}

/// An orderly operation that is exact on the held funds keeps every account
/// holding exactly the amounts of its owner's disputed transactions.
pub proof fn operation_keeps_held_with_disputes(l: Ledger, op: Operation)
    requires
        l.wf(),
        op.wf(),
        l.held_reflects_disputes(),
        orderly(l, op),
        held_exact(l, op),
    ensures
        l.after(op).held_reflects_disputes(),
{
    let m = l.after(op);
    let client = op.client();
    lemma_account_wf(l, client);
    if l.apply(op) is Ok {
        let txid = match op {
            Operation::Deposit { txid, .. } => txid,
            Operation::Withdrawal { txid, .. } => txid,
            Operation::Dispute { txid, .. } => txid,
            Operation::Resolve { txid, .. } => txid,
            Operation::Chargeback { txid, .. } => txid,
        };
        assert forall|c: ClientId|
            (#[trigger] m.account(c)).held.units() == m.disputed_units(
                c,
                TxId::MAX as nat + 1,
            ) by {
            assert(l.account(c).held.units() == l.disputed_units(c, TxId::MAX as nat + 1));
            lemma_disputed_units_differ_at(l, m, c, txid, TxId::MAX as nat + 1);
        }
    }
}

/// In every state reached from the empty ledger by orderly operations that
/// are exact on the held funds, each account holds exactly the sum of the
/// amounts of its owner's disputed transactions.
pub proof fn held_reflects_the_disputes(ops: Seq<Operation>, client: ClientId)
    requires
        all_wf(ops),
        replay_is_orderly(Ledger::empty(), ops),
    ensures
        Ledger::empty().replay(ops).held_reflects_disputes(),
        Ledger::empty().replay(ops).account(client).held.units() == Ledger::empty().replay(
            ops,
        ).disputed_units(client, TxId::MAX as nat + 1),
    decreases ops.len(),
{
    let e = Ledger::empty();
    if ops.len() == 0 {
        assert forall|c: ClientId|
            (#[trigger] e.account(c)).held.units() == e.disputed_units(
                c,
                TxId::MAX as nat + 1,
            ) by {
            lemma_empty_disputed_units(c, TxId::MAX as nat + 1);
            lemma_units_sign(e.account(c).held);
        }
    } else {
        let init = ops.drop_last();
        assert forall|i: int| 0 <= i < init.len() implies orderly(
            #[trigger] e.replay(init.take(i)),
            init[i],
        ) && held_exact(e.replay(init.take(i)), init[i]) by {
            assert(init.take(i) =~= ops.take(i));
            assert(orderly(e.replay(ops.take(i)), ops[i]));
        }
        held_reflects_the_disputes(init, client);
        replay_keeps_ledger_well_formed(e, init);
        assert(ops.take(ops.len() - 1) =~= init);
        assert(orderly(e.replay(ops.take(ops.len() - 1)), ops[ops.len() - 1]));
        operation_keeps_held_with_disputes(e.replay(init), ops.last());
    }
    assert(Ledger::empty().replay(ops).account(client).held.units() == Ledger::empty().replay(
        ops,
    ).disputed_units(client, TxId::MAX as nat + 1));
}

/// A successful dispute adds the transaction's amount to what the account
/// holds; a successful resolve or chargeback takes it from there again. The
/// sums and differences are the decimal ones.
pub proof fn held_follows_the_dispute(l: Ledger, client: ClientId, txid: TxId)
    requires
        l.wf(),
        l.history.contains_key(txid),
    ensures
        l.dispute(client, txid) is Ok ==> {
            let next = l.dispute(client, txid).unwrap();
            &&& l.history[txid].dispute_state == DisputeState::Normal
            &&& next.history[txid] == l.history[txid].in_state(DisputeState::Disputed)
            &&& Some(next.account(client).held) == l.account(client).held.sum_of(
                l.history[txid].amount,
            )
            &&& Some(next.account(client).available) == l.account(client).available.difference_of(
                l.history[txid].amount,
            )
        },
        l.resolve(client, txid) is Ok ==> {
            let next = l.resolve(client, txid).unwrap();
            &&& l.history[txid].dispute_state == DisputeState::Disputed
            &&& next.history[txid] == l.history[txid].in_state(DisputeState::Resolved)
            &&& Some(next.account(client).held) == l.account(client).held.difference_of(
                l.history[txid].amount,
            )
            &&& Some(next.account(client).available) == l.account(client).available.sum_of(
                l.history[txid].amount,
            )
        },
        l.chargeback(client, txid) is Ok ==> {
            let next = l.chargeback(client, txid).unwrap();
            &&& l.history[txid].dispute_state == DisputeState::Disputed
            &&& next.history[txid] == l.history[txid].in_state(DisputeState::ChargedBack)
            &&& Some(next.account(client).held) == l.account(client).held.difference_of(
                l.history[txid].amount,
            )
            &&& next.account(client).available == l.account(client).available
            &&& next.account(client).locked
        },
{
    lemma_account_wf(l, client);
}

/// The dispute state of a recorded transaction only moves along the life
/// cycle: an applied dispute, resolve or chargeback takes it one step on,
/// and nothing takes it back.
pub proof fn dispute_state_moves_forward(l: Ledger, op: Operation, txid: TxId)
    requires
        l.wf(),
        l.history.contains_key(txid),
    ensures
        l.after(op).history.contains_key(txid),
        match op {
            Operation::Deposit { txid: t, .. } => t == txid || l.after(op).history[txid]
                == l.history[txid],
            Operation::Withdrawal { txid: t, .. } => t == txid || l.after(op).history[txid]
                == l.history[txid],
            _ => l.after(op).history[txid] == l.history[txid] || (
            l.history[txid].dispute_state.may_become(l.after(op).history[txid].dispute_state)
                && l.after(op).history[txid] == l.history[txid].in_state(
                l.after(op).history[txid].dispute_state,
            )),
        },
{
    lemma_account_wf(l, op.client());
}

/// A dispute, resolve or chargeback of a recorded transaction that is not in
/// the state the action starts from is refused with `TxInWrongState`, and the
/// ledger, so the summary of every account, is afterwards what it was.
pub proof fn wrong_state_is_refused(l: Ledger, client: ClientId, txid: TxId, other: ClientId)
    requires
        l.history.contains_key(txid),
    ensures
        l.history[txid].dispute_state != DisputeState::Normal ==> {
            &&& l.dispute(client, txid) == Err::<Ledger, Error>(
                Error::TxInWrongState {
                    txid,
                    action: TxType::Dispute,
                    state: l.history[txid].dispute_state,
                },
            )
            &&& l.after(Operation::Dispute { client, txid }) == l
            &&& l.after(Operation::Dispute { client, txid }).account(other).summary_of()
                == l.account(other).summary_of()
        },
        l.history[txid].dispute_state != DisputeState::Disputed ==> {
            &&& l.resolve(client, txid) == Err::<Ledger, Error>(
                Error::TxInWrongState {
                    txid,
                    action: TxType::Resolve,
                    state: l.history[txid].dispute_state,
                },
            )
            &&& l.after(Operation::Resolve { client, txid }) == l
            &&& l.after(Operation::Resolve { client, txid }).account(other).summary_of()
                == l.account(other).summary_of()
            &&& l.chargeback(client, txid) == Err::<Ledger, Error>(
                Error::TxInWrongState {
                    txid,
                    action: TxType::Chargeback,
                    state: l.history[txid].dispute_state,
                },
            )
            &&& l.after(Operation::Chargeback { client, txid }) == l
            &&& l.after(Operation::Chargeback { client, txid }).account(other).summary_of()
                == l.account(other).summary_of()
        },
{
}

/// An action on a transaction id that is not recorded is refused with
/// `TxNotFound`.
pub proof fn unknown_transaction_is_refused(l: Ledger, client: ClientId, txid: TxId)
    requires
        !l.history.contains_key(txid),
    ensures
        l.dispute(client, txid) == Err::<Ledger, Error>(Error::TxNotFound { txid }),
        l.resolve(client, txid) == Err::<Ledger, Error>(Error::TxNotFound { txid }),
        l.chargeback(client, txid) == Err::<Ledger, Error>(Error::TxNotFound { txid }),
{
}

/// No operation unlocks an account.
pub proof fn operation_keeps_lock(l: Ledger, op: Operation, client: ClientId)
    requires
        l.wf(),
        l.account(client).locked,
    ensures
        l.after(op).account(client).locked,
{
    lemma_account_wf(l, op.client());
}

/// Once an account is locked it stays locked, whatever is replayed.
pub proof fn lock_is_permanent(l: Ledger, ops: Seq<Operation>, client: ClientId)
    requires
        l.wf(),
        all_wf(ops),
        l.account(client).locked,
    ensures
        l.replay(ops).account(client).locked,
    decreases ops.len(),
{
    if ops.len() > 0 {
        lock_is_permanent(l, ops.drop_last(), client);
        replay_keeps_ledger_well_formed(l, ops.drop_last());
        operation_keeps_lock(l.replay(ops.drop_last()), ops.last(), client);
    }
}

/// A deposit that is disputed and then resolved leaves the client's
/// `available` and `held` at the values they had after the deposit, where
/// the two sums and two differences on the way are exact.
pub proof fn dispute_then_resolve_restores(
    l: Ledger,
    txid: TxId,
    client: ClientId,
    amount: Amount,
)
    requires
        l.wf(),
        amount.wf(),
        amount.is_nonneg(),
        l.deposit(txid, client, amount) is Ok,
        l.deposit(txid, client, amount).unwrap().dispute(client, txid) is Ok,
        l.deposit(txid, client, amount).unwrap().dispute(client, txid).unwrap().resolve(
            client,
            txid,
        ) is Ok,
        ({
            let before = l.deposit(txid, client, amount).unwrap().account(client);
            let during = l.deposit(txid, client, amount).unwrap().dispute(
                client,
                txid,
            ).unwrap().account(client);
            &&& exact_difference(before.available, amount)
            &&& exact_sum(before.held, amount)
            &&& exact_sum(during.available, amount)
            &&& exact_difference(during.held, amount)
        }),
    ensures
        ({
            let before = l.deposit(txid, client, amount).unwrap();
            let after = before.dispute(client, txid).unwrap().resolve(client, txid).unwrap();
            &&& after.account(client).available.units() == before.account(client).available.units()
            &&& after.account(client).held.units() == before.account(client).held.units()
            &&& after.account(client).locked == before.account(client).locked
            &&& after.history[txid] == before.history[txid].in_state(DisputeState::Resolved)
        }),
{
    lemma_account_wf(l, client);
    operation_keeps_ledger_well_formed(l, Operation::Deposit { txid, client, amount });
    let l1 = l.deposit(txid, client, amount).unwrap();
    assert(l1 == l.after(Operation::Deposit { txid, client, amount }));
    lemma_account_wf(l1, client);
    assert(l1.history.contains_key(txid));
    assert(l1.history[txid].amount == amount);
    held_follows_the_dispute(l1, client, txid);
    operation_keeps_ledger_well_formed(l1, Operation::Dispute { client, txid });
    let l2 = l1.dispute(client, txid).unwrap();
    assert(l2 == l1.after(Operation::Dispute { client, txid }));
    lemma_account_wf(l2, client);
    assert(l2.history.contains_key(txid));
    held_follows_the_dispute(l2, client, txid);
}

} // verus!
