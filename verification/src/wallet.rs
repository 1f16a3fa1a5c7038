//! The executable wallet.
//!
//! [`Contract`] holds the owners, the threshold and the transactions. Each of
//! its methods is proved to make the transition that [`WalletState`] defines
//! for it: it returns the error that the model gives and leaves the wallet
//! untouched, or it moves the wallet to the model's next state.

use crate::account::AccountId;
use crate::error::WalletError;
use crate::model::{any_in, without, TransferState, TxState, WalletState};
use vstd::prelude::*;
use vstd::std_specs::cmp::PartialEqSpecImpl;

verus! {

/// A proposed transfer.
#[derive(Debug)]
pub struct TX {
    /// The position of the transaction in the wallet, counted from 1.
    pub id: u128,
    /// The account that receives the transfer.
    pub to: AccountId,
    /// The value to transfer.
    pub amount: u128,
    /// The number of votes counted so far.
    pub votes: u128,
    /// Whether the transfer has been authorised.
    pub executed: bool,
}

/// A transfer that an execution has authorised and that the caller is to
/// perform.
#[derive(Debug)]
pub struct Transfer {
    /// The account that receives the value.
    pub to: AccountId,
    /// The value to transfer.
    pub amount: u128,
}

/// A wallet: its owners, the number of votes that an execution needs, and the
/// transfers proposed so far.
#[derive(Debug)]
pub struct Contract {
    owners: Vec<AccountId>,
    threshold: u128,
    txs: Vec<TX>,
}

impl View for TX {
    type V = TxState;

    open spec fn view(&self) -> TxState {
        TxState {
            id: self.id as nat,
            to: self.to@,
            amount: self.amount as nat,
            votes: self.votes as nat,
            executed: self.executed,
        }
    }
}

impl View for Transfer {
    type V = TransferState;

    open spec fn view(&self) -> TransferState {
        TransferState { to: self.to@, amount: self.amount as nat }
    }
}

/// The names of a sequence of identities.
pub open spec fn names(ids: Seq<AccountId>) -> Seq<Seq<char>> {
    ids.map_values(|id: AccountId| id@)
}

impl View for Contract {
    type V = WalletState;

    closed spec fn view(&self) -> WalletState {
        WalletState {
            owners: names(self.owners@),
            threshold: self.threshold as nat,
            txs: self.txs@.map_values(|tx: TX| tx@),
        }
    }
}

impl PartialEq for TX {
    fn eq(&self, other: &Self) -> (same: bool) {
        self.id == other.id && self.to == other.to && self.amount == other.amount && self.votes
            == other.votes && self.executed == other.executed
    }
}

impl PartialEqSpecImpl for TX {
    open spec fn obeys_eq_spec() -> bool {
        true
    }

    open spec fn eq_spec(&self, other: &Self) -> bool {
        self@ == other@
    }
}

impl Clone for TX {
    fn clone(&self) -> (tx: Self)
        ensures
            tx@ == self@,
    {
        TX {
            id: self.id,
            to: self.to.clone(),
            amount: self.amount,
            votes: self.votes,
            executed: self.executed,
        }
    }
}

/// Whether `who` is among `list`.
fn contains_account(list: &Vec<AccountId>, who: &AccountId) -> (found: bool)
    ensures
        found == names(list@).contains(who@),
{
    let mut i: usize = 0;
    while i < list.len()
        invariant
            i <= list.len(),
            forall|k: int| 0 <= k < i ==> names(list@)[k] != who@,
        decreases list.len() - i,
    {
        if list[i] == *who {
            assert(names(list@)[i as int] == who@);
            return true;
        }
        i += 1;
    }
    false
}

/// Whether some identity of `some` is among `list`.
fn any_account_in(some: &Vec<AccountId>, list: &Vec<AccountId>) -> (found: bool)
    ensures
        found == any_in(names(some@), names(list@)),
{
    let mut i: usize = 0;
    while i < some.len()
        invariant
            i <= some.len(),
            forall|k: int| 0 <= k < i ==> !names(list@).contains(#[trigger] names(some@)[k]),
        decreases some.len() - i,
    {
        if contains_account(list, &some[i]) {
            assert(names(list@).contains(names(some@)[i as int]));
            return true;
        }
        i += 1;
    }
    false
}

/// The identities of `list` that are not among `targets`, in their order.
fn accounts_without(list: &Vec<AccountId>, targets: &Vec<AccountId>) -> (kept: Vec<AccountId>)
    ensures
        names(kept@) == without(names(list@), names(targets@)),
{
    let ghost all = names(list@);
    let ghost keep = |name: Seq<char>| !names(targets@).contains(name);
    let mut kept: Vec<AccountId> = Vec::new();
    let mut i: usize = 0;
    proof {
        reveal(Seq::filter);
        assert(all.take(0).filter(keep) =~= names(kept@));
    }
    while i < list.len()
        invariant
            i <= list.len(),
            all == names(list@),
            keep == |name: Seq<char>| !names(targets@).contains(name),
            names(kept@) == all.take(i as int).filter(keep),
        decreases list.len() - i,
    {
        let ghost before = names(kept@);
        proof {
            reveal(Seq::filter);
            assert(all.take(i + 1).drop_last() =~= all.take(i as int));
        }
        if !contains_account(targets, &list[i]) {
            let owner = list[i].clone();
            kept.push(owner);
            assert(names(kept@) =~= before.push(all[i as int]));
        }
        i += 1;
    }
    assert(all.take(i as int) =~= all);
    kept
}

impl Default for Contract {
    /// A wallet with no owner, a threshold of zero and no transaction.
    fn default() -> (wallet: Self)
        ensures
            wallet@ == WalletState::init(),
            wallet.wf(),
    {
        let wallet = Contract { owners: Vec::new(), threshold: 0, txs: Vec::new() };
        assert(wallet@.owners =~= WalletState::init().owners);
        assert(wallet@.txs =~= WalletState::init().txs);
        wallet
    }
}

impl Contract {
    /// The ids of the transactions count up from 1.
    pub open spec fn wf(&self) -> bool {
        self@.wf()
    }

    /// A vote for the transaction `id`, if there is one, still fits the
    /// counter.
    pub open spec fn can_count_vote(&self, id: u128) -> bool {
        self@.has_tx(id as nat) ==> self@.tx(id as nat).votes < u128::MAX
    }

    /// Where the transaction `id` stands among the transactions, if it exists.
    fn position(&self, id: u128) -> (at: Option<usize>)
        requires
            self.wf(),
        ensures
            at is Some <==> self@.has_tx(id as nat),
            at matches Some(i) ==> i == id - 1 && i < self.txs@.len() && self.txs@[i as int]@
                == self@.tx(id as nat),
    {
        if 1 <= id && id <= self.txs.len() as u128 {
            Some((id - 1) as usize)
        } else {
            None
        }
    }

    /// Puts a stored wallet together again from its parts.
    ///
    /// Returns `None` when the ids of `txs` do not count up from 1, which no
    /// wallet's transactions do.
    pub fn from_parts(owners: Vec<AccountId>, threshold: u128, txs: Vec<TX>) -> (wallet: Option<
        Contract,
    >)
        ensures
            wallet is Some <==> (forall|i: int| 0 <= i < txs@.len() ==> txs@[i].id == i + 1),
            wallet matches Some(w) ==> w.wf() && w@ == (WalletState {
                owners: names(owners@),
                threshold: threshold as nat,
                txs: txs@.map_values(|tx: TX| tx@),
            }),
    {
        let mut i: usize = 0;
        while i < txs.len()
            invariant
                i <= txs.len(),
                forall|k: int| 0 <= k < i ==> txs@[k].id == k + 1,
            decreases txs.len() - i,
        {
            if txs[i].id != i as u128 + 1 {
                return None;
            }
            i += 1;
        }
        Some(Contract { owners, threshold, txs })
    }

    /// A copy of every transaction, in the order of proposal.
    pub fn get_txs(&self) -> (txs: Vec<TX>)
        ensures
            txs@.map_values(|tx: TX| tx@) == self@.txs,
    {
        let mut txs: Vec<TX> = Vec::new();
        let mut i: usize = 0;
        while i < self.txs.len()
            invariant
                i <= self.txs.len(),
                txs@.map_values(|tx: TX| tx@) == self@.txs.take(i as int),
            decreases self.txs.len() - i,
        {
            let ghost copied = txs@.map_values(|tx: TX| tx@);
            let tx = self.txs[i].clone();
            txs.push(tx);
            assert(txs@.map_values(|tx: TX| tx@) =~= copied.push(self@.txs[i as int]));
            i += 1;
        }
        assert(self@.txs.take(i as int) =~= self@.txs);
        txs
    }

    /// The threshold: the number of votes that an execution needs.
    pub fn threshold(&self) -> (value: u128)
        ensures
            value == self@.threshold,
    {
        self.threshold
    }

    /// The owners, in the order in which they were added.
    pub fn get_owners(&self) -> (owners: Vec<AccountId>)
        ensures
            names(owners@) == self@.owners,
    {
        let mut owners: Vec<AccountId> = Vec::new();
        let mut i: usize = 0;
        while i < self.owners.len()
            invariant
                i <= self.owners.len(),
                names(owners@) == names(self.owners@).take(i as int),
            decreases self.owners.len() - i,
        {
            let ghost copied = names(owners@);
            let owner = self.owners[i].clone();
            owners.push(owner);
            assert(names(owners@) =~= copied.push(names(self.owners@)[i as int]));
            i += 1;
        }
        assert(names(self.owners@).take(i as int) =~= names(self.owners@));
        owners
    }

    /// Replaces the threshold.
    ///
    /// The call is refused when `threshold` is more than the number of owners.
    /// Nothing else is asked of it: it may be zero, and it may be more than the
    /// votes that a pending transaction can still gather.
    pub fn set_threshold(&mut self, threshold: u128) -> (done: Result<(), WalletError>)
        ensures
            old(self).wf() ==> final(self).wf(),
            match old(self)@.set_threshold(threshold as nat) {
                Ok(next) => done is Ok && final(self)@ == next,
                Err(e) => done == Err::<(), WalletError>(e) && final(self)@ == old(self)@,
            },
    {
        if threshold > self.owners.len() as u128 {
            return Err(WalletError::InvalidThreshold);
        }
        self.threshold = threshold;
        Ok(())
    }

    /// Adds `owners` after the present owners.
    ///
    /// The call is refused, and nobody is added, when one of `owners` is an
    /// owner already. An identity that `owners` holds twice is added twice.
    pub fn set_owners(&mut self, owners: Vec<AccountId>) -> (done: Result<(), WalletError>)
        ensures
            old(self).wf() ==> final(self).wf(),
            match old(self)@.add_owners(names(owners@)) {
                Ok(next) => done is Ok && final(self)@ == next,
                Err(e) => done == Err::<(), WalletError>(e) && final(self)@ == old(self)@,
            },
    {
        if any_account_in(&owners, &self.owners) {
            return Err(WalletError::DuplicateOwner);
        }
        let mut new = owners;
        self.owners.append(&mut new);
        assert(names(self.owners@) =~= names(old(self).owners@) + names(owners@));
        Ok(())
    }

    /// Removes every owner that is among `owners`.
    ///
    /// The call is refused when none of `owners` is an owner. Otherwise those
    /// that are owners are removed and the others are passed over. The
    /// threshold stays as it is, also where fewer owners than that remain.
    pub fn remove_owners(&mut self, owners: Vec<AccountId>) -> (done: Result<(), WalletError>)
        ensures
            old(self).wf() ==> final(self).wf(),
            match old(self)@.remove_owners(names(owners@)) {
                Ok(next) => done is Ok && final(self)@ == next,
                Err(e) => done == Err::<(), WalletError>(e) && final(self)@ == old(self)@,
            },
    {
        if !any_account_in(&owners, &self.owners) {
            return Err(WalletError::NotAnOwner);
        }
        self.owners = accounts_without(&self.owners, &owners);
        Ok(())
    }

    /// A copy of the transaction `id`.
    ///
    /// The call is refused when no transaction has this id.
    pub fn get_tx(&self, id: u128) -> (found: Result<TX, WalletError>)
        requires
            self.wf(),
        ensures
            match self@.get_tx(id as nat) {
                Ok(tx) => found is Ok && found->Ok_0@ == tx,
                Err(e) => found == Err::<TX, WalletError>(e),
            },
    {
        match self.position(id) {
            Some(index) => Ok(self.txs[index].clone()),
            None => Err(WalletError::InvalidId),
        }
    }

    /// Proposes a transfer of `attached` to `to`, where `attached` is the value
    /// that came with the call.
    ///
    /// The call is refused when the threshold is zero, and when no value is
    /// attached. Otherwise a transaction with the next id, no votes and not
    /// executed is appended.
    pub fn create_tx(&mut self, to: AccountId, attached: u128) -> (done: Result<(), WalletError>)
        requires
            old(self).wf(),
        ensures
            final(self).wf(),
            match old(self)@.create_tx(to@, attached as nat) {
                Ok(next) => done is Ok && final(self)@ == next,
                Err(e) => done == Err::<(), WalletError>(e) && final(self)@ == old(self)@,
            },
    {
        if self.threshold == 0 {
            return Err(WalletError::ThresholdNotSet);
        }
        if attached == 0 {
            return Err(WalletError::NoValueAttached);
        }
        let id: u128 = self.txs.len() as u128 + 1;
        let tx = TX { id, to, amount: attached, votes: 0, executed: false };
        self.txs.push(tx);
        assert(self@.txs =~= old(self)@.txs.push(
            TxState::proposed(old(self)@.txs.len() + 1, to@, attached as nat),
        ));
        Ok(())
    }

    /// Counts one vote of `caller` for the transaction `id`.
    ///
    /// The call is refused when the threshold is zero, when `caller` is not an
    /// owner, when no transaction has this id, and when the transaction is
    /// already executed, in this order. Votes are counted, not recorded: an
    /// owner who votes twice is counted twice.
    pub fn vote_tx(&mut self, id: u128, caller: &AccountId) -> (done: Result<(), WalletError>)
        requires
            old(self).wf(),
            old(self).can_count_vote(id),
        ensures
            final(self).wf(),
            match old(self)@.vote_tx(id as nat, caller@) {
                Ok(next) => done is Ok && final(self)@ == next,
                Err(e) => done == Err::<(), WalletError>(e) && final(self)@ == old(self)@,
            },
    {
        if self.threshold == 0 {
            return Err(WalletError::ThresholdNotSet);
        }
        if !contains_account(&self.owners, caller) {
            return Err(WalletError::CallerNotOwner);
        }
        let index = match self.position(id) {
            Some(index) => index,
            None => { return Err(WalletError::TxNotFound); },
        };
        if self.txs[index].executed {
            return Err(WalletError::AlreadyExecuted);
        }
        self.txs[index].votes += 1;
        assert(self@.txs =~= old(self)@.with_tx(id as nat, old(self)@.tx(id as nat).voted()).txs);
        Ok(())
    }

    /// Executes the transaction `id` on behalf of `caller`.
    ///
    /// The call is refused when the threshold is zero, when `caller` is not an
    /// owner, when no transaction has this id, when the transaction is already
    /// executed, and when it has fewer votes than the threshold, in this
    /// order. Otherwise the transaction is marked executed, the call is
    /// counted as one more vote, and the transfer to perform is returned.
    pub fn execute_tx(&mut self, id: u128, caller: &AccountId) -> (done: Result<
        Transfer,
        WalletError,
    >)
        requires
            old(self).wf(),
            old(self).can_count_vote(id),
        ensures
            final(self).wf(),
            match old(self)@.execute_tx(id as nat, caller@) {
                Ok((next, transfer)) => done is Ok && done->Ok_0@ == transfer && final(self)@
                    == next,
                Err(e) => done == Err::<Transfer, WalletError>(e) && final(self)@ == old(self)@,
            },
    {
        if self.threshold == 0 {
            return Err(WalletError::ThresholdNotSet);
        }
        if !contains_account(&self.owners, caller) {
            return Err(WalletError::CallerNotOwner);
        }
        let index = match self.position(id) {
            Some(index) => index,
            None => { return Err(WalletError::TxNotFound); },
        };
        if self.txs[index].executed {
            return Err(WalletError::AlreadyExecuted);
        }
        if self.txs[index].votes < self.threshold {
            return Err(WalletError::ThresholdNotReached);
        }
        self.txs[index].executed = true;
        self.txs[index].votes += 1;
        let transfer = Transfer { to: self.txs[index].to.clone(), amount: self.txs[index].amount };
        assert(self@.txs =~= old(self)@.with_tx(id as nat, old(self)@.tx(id as nat).done()).txs);
        Ok(transfer)
    }
}

} // verus!
