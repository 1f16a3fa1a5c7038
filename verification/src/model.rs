//! The wallet as a mathematical state machine.
//!
//! A [`WalletState`] holds the owners, the threshold and the transactions as
//! sequences and natural numbers. Each operation of the wallet is a function
//! from a state and the operation's inputs to the next state or to the error
//! with which the call is refused.

use crate::error::WalletError;
use vstd::prelude::*;

verus! {

/// A proposed transfer.
pub struct TxState {
    /// The position of the transaction in the wallet, counted from 1.
    pub id: nat,
    /// The name of the account that receives the transfer.
    pub to: Seq<char>,
    /// The value to transfer.
    pub amount: nat,
    /// The number of votes counted so far.
    pub votes: nat,
    /// Whether the transfer has been authorised.
    pub executed: bool,
}

/// A transfer that an execution has authorised.
pub struct TransferState {
    /// The name of the account that receives the value.
    pub to: Seq<char>,
    /// The value to transfer.
    pub amount: nat,
}

/// The state of a wallet.
pub struct WalletState {
    /// The names of the owners, in the order in which they were added.
    pub owners: Seq<Seq<char>>,
    /// The number of votes that a transaction needs before it can be executed.
    pub threshold: nat,
    /// The transactions, in the order in which they were proposed.
    pub txs: Seq<TxState>,
}

/// A call that changes a wallet, with its inputs.
pub enum Call {
    /// Add owners.
    AddOwners { owners: Seq<Seq<char>> },
    /// Remove owners.
    RemoveOwners { owners: Seq<Seq<char>> },
    /// Replace the threshold.
    SetThreshold { value: nat },
    /// Propose a transfer of the attached value.
    CreateTx { to: Seq<char>, attached: nat },
    /// Vote for a transaction.
    VoteTx { id: nat, caller: Seq<char> },
    /// Execute a transaction.
    ExecuteTx { id: nat, caller: Seq<char> },
}

/// Some name in `names` is also in `others`.
pub open spec fn any_in(names: Seq<Seq<char>>, others: Seq<Seq<char>>) -> bool {
    exists|i: int| 0 <= i < names.len() && others.contains(#[trigger] names[i])
}

/// The names of `owners` that are not in `targets`, in their order.
pub open spec fn without(owners: Seq<Seq<char>>, targets: Seq<Seq<char>>) -> Seq<Seq<char>> {
    owners.filter(|name: Seq<char>| !targets.contains(name))
}

impl TxState {
    /// The transaction as it is proposed: no votes, not executed.
    pub open spec fn proposed(id: nat, to: Seq<char>, amount: nat) -> TxState {
        TxState { id, to, amount, votes: 0, executed: false }
    }

    /// The transaction with one more vote.
    pub open spec fn voted(self) -> TxState {
        TxState { votes: self.votes + 1, ..self }
    }

    /// The transaction once it is executed: the execution counts as a vote.
    pub open spec fn done(self) -> TxState {
        TxState { votes: self.votes + 1, executed: true, ..self }
    }

    /// The transfer that executing the transaction authorises.
    pub open spec fn transfer(self) -> TransferState {
        TransferState { to: self.to, amount: self.amount }
    }
}

impl WalletState {
    /// The wallet before any call: no owner, no threshold, no transaction.
    pub open spec fn init() -> WalletState {
        WalletState { owners: Seq::empty(), threshold: 0, txs: Seq::empty() }
    }

    /// The ids of the transactions are 1, 2, 3, ... in the order of proposal.
    pub open spec fn wf(self) -> bool {
        forall|i: int| 0 <= i < self.txs.len() ==> (#[trigger] self.txs[i]).id == i + 1
    }

    /// `who` is an owner.
    pub open spec fn is_owner(self, who: Seq<char>) -> bool {
        self.owners.contains(who)
    }

    /// A transaction with this id has been proposed.
    pub open spec fn has_tx(self, id: nat) -> bool {
        1 <= id <= self.txs.len()
    }

    /// The transaction with this id.
    pub open spec fn tx(self, id: nat) -> TxState
        recommends
            self.has_tx(id),
    {
        self.txs[id - 1]
    }

    /// The wallet with the transaction of this id replaced.
    pub open spec fn with_tx(self, id: nat, tx: TxState) -> WalletState
        recommends
            self.has_tx(id),
    {
        WalletState { txs: self.txs.update(id - 1, tx), ..self }
    }

    /// Adds `new` after the present owners, unless one of them is an owner
    /// already.
    pub open spec fn add_owners(self, new: Seq<Seq<char>>) -> Result<WalletState, WalletError> {
        if any_in(new, self.owners) {
            Err(WalletError::DuplicateOwner)
        } else {
            Ok(WalletState { owners: self.owners + new, ..self })
        }
    }

    /// Removes every owner named in `targets`, unless none of them is an owner.
    pub open spec fn remove_owners(self, targets: Seq<Seq<char>>) -> Result<
        WalletState,
        WalletError,
    > {
        if !any_in(targets, self.owners) {
            Err(WalletError::NotAnOwner)
        } else {
            Ok(WalletState { owners: without(self.owners, targets), ..self })
        }
    }

    /// Replaces the threshold, unless `value` is more than the number of owners.
    pub open spec fn set_threshold(self, value: nat) -> Result<WalletState, WalletError> {
        if value > self.owners.len() {
            Err(WalletError::InvalidThreshold)
        } else {
            Ok(WalletState { threshold: value, ..self })
        }
    }

    /// Proposes a transfer of `attached` to `to`. The new transaction gets the
    /// next id.
    pub open spec fn create_tx(self, to: Seq<char>, attached: nat) -> Result<
        WalletState,
        WalletError,
    > {
        if self.threshold == 0 {
            Err(WalletError::ThresholdNotSet)
        } else if attached == 0 {
            Err(WalletError::NoValueAttached)
        } else {
            Ok(
                WalletState {
                    txs: self.txs.push(TxState::proposed(self.txs.len() + 1, to, attached)),
                    ..self
                },
            )
        }
    }

    /// The error with which a vote or an execution by `caller` on `id` is
    /// refused before the votes are looked at, if there is one.
    pub open spec fn refusal(self, id: nat, caller: Seq<char>) -> Option<WalletError> {
        if self.threshold == 0 {
            Some(WalletError::ThresholdNotSet)
        } else if !self.is_owner(caller) {
            Some(WalletError::CallerNotOwner)
        } else if !self.has_tx(id) {
            Some(WalletError::TxNotFound)
        } else if self.tx(id).executed {
            Some(WalletError::AlreadyExecuted)
        } else {
            None
        }
    }

    /// Counts one vote of `caller` for the transaction `id`.
    pub open spec fn vote_tx(self, id: nat, caller: Seq<char>) -> Result<WalletState, WalletError> {
        match self.refusal(id, caller) {
            Some(e) => Err(e),
            None => Ok(self.with_tx(id, self.tx(id).voted())),
        }
    }

    /// Executes the transaction `id` on behalf of `caller`: marks it executed,
    /// counts the call as a vote, and authorises the transfer.
    pub open spec fn execute_tx(self, id: nat, caller: Seq<char>) -> Result<
        (WalletState, TransferState),
        WalletError,
    > {
        match self.refusal(id, caller) {
            Some(e) => Err(e),
            None => if self.tx(id).votes < self.threshold {
                Err(WalletError::ThresholdNotReached)
            } else {
                Ok((self.with_tx(id, self.tx(id).done()), self.tx(id).transfer()))
            },
        }
    }

    /// The transaction with this id.
    pub open spec fn get_tx(self, id: nat) -> Result<TxState, WalletError> {
        if self.has_tx(id) {
            Ok(self.tx(id))
        } else {
            Err(WalletError::InvalidId)
        }
    }

    /// What `call` answers in this state: the next state, or the error.
    pub open spec fn step(self, call: Call) -> Result<WalletState, WalletError> {
        match call {
            Call::AddOwners { owners } => self.add_owners(owners),
            Call::RemoveOwners { owners } => self.remove_owners(owners),
            Call::SetThreshold { value } => self.set_threshold(value),
            Call::CreateTx { to, attached } => self.create_tx(to, attached),
            Call::VoteTx { id, caller } => self.vote_tx(id, caller),
            Call::ExecuteTx { id, caller } => match self.execute_tx(id, caller) {
                Ok((next, _)) => Ok(next),
                Err(e) => Err(e),
            },
        }
    }

    /// The state after `call`: a refused call leaves the state as it was.
    pub open spec fn after(self, call: Call) -> WalletState {
        match self.step(call) {
            Ok(next) => next,
            Err(_) => self,
        }
    }

    /// The state after a series of calls, made one after the other.
    pub open spec fn run(self, calls: Seq<Call>) -> WalletState
        decreases calls.len(),
    {
        if calls.len() == 0 {
            self
        } else {
            self.run(calls.drop_last()).after(calls.last())
        }
    }
}

} // verus!
