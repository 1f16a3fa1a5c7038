//! What holds of every run of the wallet.
//!
//! Each law is a theorem about the transitions of [`WalletState`]. Since the
//! methods of the executable wallet are proved to make exactly those
//! transitions, the laws hold of it too.

use crate::error::WalletError;
use crate::model::{any_in, Call, TransferState, TxState, WalletState};
use vstd::prelude::*;

verus! {

/// No name of a batch is an owner already, and no name is in two batches.
pub open spec fn disjoint_batches(owners: Seq<Seq<char>>, batches: Seq<Seq<Seq<char>>>) -> bool {
    &&& forall|i: int, k: int|
        0 <= i < batches.len() && 0 <= k < batches[i].len() ==> !owners.contains(
            #[trigger] batches[i][k],
        )
    &&& forall|i: int, j: int, k: int|
        0 <= i < j < batches.len() && 0 <= k < batches[j].len() ==> !(#[trigger] batches[i]).contains(
            #[trigger] batches[j][k],
        )
}

/// The state after adding each batch of owners in turn, or the error of the
/// first call that is refused.
pub open spec fn add_each(start: WalletState, batches: Seq<Seq<Seq<char>>>) -> Result<
    WalletState,
    WalletError,
>
    decreases batches.len(),
{
    if batches.len() == 0 {
        Ok(start)
    } else {
        match add_each(start, batches.drop_last()) {
            Ok(state) => state.add_owners(batches.last()),
            Err(e) => Err(e),
        }
    }
}

/// A name of the concatenation of some batches is a name of one of them.
proof fn lemma_flatten_member(batches: Seq<Seq<Seq<char>>>, name: Seq<char>)
    requires
        batches.flatten().contains(name),
    ensures
        exists|i: int| 0 <= i < batches.len() && (#[trigger] batches[i]).contains(name),
    decreases batches.len(),
{
    if batches.len() > 0 {
        let front = batches.drop_last();
        assert(batches =~= front.push(batches.last()));
        front.lemma_flatten_push(batches.last());
        let at = choose|at: int| 0 <= at < batches.flatten().len() && batches.flatten()[at] == name;
        if at < front.flatten().len() {
            assert(front.flatten()[at] == name);
            lemma_flatten_member(front, name);
            let i = choose|i: int| 0 <= i < front.len() && (#[trigger] front[i]).contains(name);
            assert(batches[i].contains(name));
        } else {
            assert(batches.last()[at - front.flatten().len()] == name);
            assert(batches[batches.len() - 1].contains(name));
        }
    }
}

/// Owners come out in the order in which they went in: when batches of
/// owners that share no name with each other or with the present owners are
/// added one after the other, every call succeeds, and the owners are then the
/// former owners followed by the batches in their order. Nothing else changes.
pub proof fn law_owners_are_appended(start: WalletState, batches: Seq<Seq<Seq<char>>>)
    requires
        disjoint_batches(start.owners, batches),
    ensures
        add_each(start, batches) == Ok::<WalletState, WalletError>(
            WalletState { owners: start.owners + batches.flatten(), ..start },
        ),
    decreases batches.len(),
{
    if batches.len() == 0 {
        assert(start.owners + batches.flatten() =~= start.owners);
    } else {
        let front = batches.drop_last();
        let last = batches.last();
        assert(batches =~= front.push(last));
        front.lemma_flatten_push(last);
        assert(disjoint_batches(start.owners, front)) by {
            assert forall|i: int, k: int|
                0 <= i < front.len() && 0 <= k < front[i].len() implies !start.owners.contains(
                #[trigger] front[i][k],
            ) by {
                assert(front[i][k] == batches[i][k]);
            }
            assert forall|i: int, j: int, k: int|
                0 <= i < j < front.len() && 0 <= k < front[j].len() implies !(#[trigger] front[i]).contains(
                #[trigger] front[j][k],
            ) by {
                assert(front[i] == batches[i]);
                assert(front[j][k] == batches[j][k]);
            }
        }
        law_owners_are_appended(start, front);
        let mid = WalletState { owners: start.owners + front.flatten(), ..start };
        assert(!any_in(last, mid.owners)) by {
            assert forall|k: int| 0 <= k < last.len() implies !mid.owners.contains(
                #[trigger] last[k],
            ) by {
                let name = last[k];
                assert(name == batches[batches.len() - 1][k]);
                if front.flatten().contains(name) {
                    lemma_flatten_member(front, name);
                    let i = choose|i: int|
                        0 <= i < front.len() && (#[trigger] front[i]).contains(name);
                    assert(batches[i].contains(name));
                }
                if mid.owners.contains(name) {
                    let at = choose|at: int| 0 <= at < mid.owners.len() && mid.owners[at] == name;
                    if at < start.owners.len() {
                        assert(start.owners[at] == name);
                    } else {
                        assert(front.flatten()[at - start.owners.len()] == name);
                    }
                }
            }
        }
        assert(mid.owners + last =~= start.owners + batches.flatten());
    }
}

/// Ids are assigned in order: a proposal that is accepted adds one
/// transaction at the end, whose id is the number of transactions before it
/// plus one, and leaves the others as they were.
pub proof fn law_ids_are_assigned_in_order(state: WalletState, to: Seq<char>, attached: nat)
    requires
        state.wf(),
        state.create_tx(to, attached) is Ok,
    ensures
        ({
            let next = state.create_tx(to, attached)->Ok_0;
            &&& next.wf()
            &&& next.txs.len() == state.txs.len() + 1
            &&& next.txs.last().id == state.txs.len() + 1
            &&& next.txs.drop_last() == state.txs
        }),
{
    let next = state.create_tx(to, attached)->Ok_0;
    assert(next.txs.drop_last() =~= state.txs);
}

/// A call never removes a transaction, nor changes the id, the receiver or
/// the amount of one, and it keeps the ids counting up from 1.
pub proof fn law_call_keeps_transactions(state: WalletState, call: Call)
    requires
        state.wf(),
    ensures
        state.after(call).wf(),
        state.after(call).txs.len() >= state.txs.len(),
        forall|i: int|
            0 <= i < state.txs.len() ==> {
                &&& (#[trigger] state.after(call).txs[i]).id == state.txs[i].id
                &&& state.after(call).txs[i].to == state.txs[i].to
                &&& state.after(call).txs[i].amount == state.txs[i].amount
            },
{
}

/// Ids are never reused and leave no gaps: after any series of calls every
/// transaction that was there is still there, with its id, its receiver and
/// its amount, and the ids still count up from 1.
pub proof fn law_run_keeps_transactions(state: WalletState, calls: Seq<Call>)
    requires
        state.wf(),
    ensures
        state.run(calls).wf(),
        state.run(calls).txs.len() >= state.txs.len(),
        forall|i: int|
            0 <= i < state.txs.len() ==> {
                &&& (#[trigger] state.run(calls).txs[i]).id == state.txs[i].id
                &&& state.run(calls).txs[i].to == state.txs[i].to
                &&& state.run(calls).txs[i].amount == state.txs[i].amount
            },
    decreases calls.len(),
{
    if calls.len() > 0 {
        law_run_keeps_transactions(state, calls.drop_last());
        law_call_keeps_transactions(state.run(calls.drop_last()), calls.last());
    }
}

/// A call never lowers the votes of a transaction. The one call that changes
/// an executed transaction's flag is its execution, which counts as one vote;
/// a transaction that is executed already is left exactly as it is.
pub proof fn law_call_only_adds_votes(state: WalletState, call: Call, i: int)
    requires
        state.wf(),
        0 <= i < state.txs.len(),
    ensures
        state.after(call).txs[i].votes >= state.txs[i].votes,
        state.txs[i].executed ==> state.after(call).txs[i] == state.txs[i],
        !state.txs[i].executed && state.after(call).txs[i].executed ==> state.after(
            call,
        ).txs[i].votes == state.txs[i].votes + 1,
{
}

/// Votes only grow, and an executed transaction is frozen: after any series of
/// calls a transaction has at least the votes it had, and one that was
/// executed is exactly as it was.
pub proof fn law_votes_only_grow(state: WalletState, calls: Seq<Call>, i: int)
    requires
        state.wf(),
        0 <= i < state.txs.len(),
    ensures
        i < state.run(calls).txs.len(),
        state.run(calls).txs[i].votes >= state.txs[i].votes,
        state.txs[i].executed ==> state.run(calls).txs[i] == state.txs[i],
    decreases calls.len(),
{
    if calls.len() > 0 {
        let before = state.run(calls.drop_last());
        law_votes_only_grow(state, calls.drop_last(), i);
        law_run_keeps_transactions(state, calls.drop_last());
        law_call_only_adds_votes(before, calls.last(), i);
    }
}

/// A transaction is executed at most once: once an execution of `id` has
/// succeeded, then after any series of calls every execution of `id`, by
/// whichever caller, is refused. It is refused as already executed whenever
/// the threshold is set and the caller is an owner, which holds in particular
/// when the same caller tries again at once.
pub proof fn law_no_second_execution(
    state: WalletState,
    id: nat,
    caller: Seq<char>,
    calls: Seq<Call>,
    again: Seq<char>,
)
    requires
        state.wf(),
        state.execute_tx(id, caller) is Ok,
    ensures
        ({
            let executed = state.execute_tx(id, caller)->Ok_0.0;
            let later = executed.run(calls);
            &&& later.execute_tx(id, again) is Err
            &&& later.threshold > 0 && later.is_owner(again) ==> later.execute_tx(id, again) == Err::<
                (WalletState, TransferState),
                WalletError,
            >(WalletError::AlreadyExecuted)
            &&& executed.execute_tx(id, caller) == Err::<
                (WalletState, TransferState),
                WalletError,
            >(WalletError::AlreadyExecuted)
        }),
{
    let executed = state.execute_tx(id, caller)->Ok_0.0;
    assert(executed.wf());
    assert(executed.txs[id - 1].executed);
    law_votes_only_grow(executed, calls, id - 1);
}

/// An execution succeeds only with enough votes: when it succeeds, the
/// threshold is set, the caller is an owner, and the transaction exists, was
/// not executed, and had at least as many votes as the threshold.
pub proof fn law_execution_needs_votes(state: WalletState, id: nat, caller: Seq<char>)
    requires
        state.execute_tx(id, caller) is Ok,
    ensures
        state.threshold > 0,
        state.is_owner(caller),
        state.has_tx(id),
        !state.tx(id).executed,
        state.tx(id).votes >= state.threshold,
{
}

/// What is proposed can be read back: after an accepted proposal, the
/// transaction with the new id has the receiver and the amount of the
/// proposal, no votes, and is not executed.
pub proof fn law_create_then_get(state: WalletState, to: Seq<char>, attached: nat)
    requires
        state.create_tx(to, attached) is Ok,
    ensures
        ({
            let next = state.create_tx(to, attached)->Ok_0;
            let id = (state.txs.len() + 1) as nat;
            next.get_tx(id) == Ok::<TxState, WalletError>(
                TxState { id, to, amount: attached, votes: 0, executed: false },
            )
        }),
{
}

} // verus!
