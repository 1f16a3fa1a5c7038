//! A multi-owner wallet in which a transfer is proposed, gathers votes, and is
//! executed once the votes reach the approval threshold.
//!
//! The wallet is a state machine. [`model`] defines its states and transitions
//! as mathematical values, [`wallet`] holds the executable wallet whose methods
//! are proved to follow those transitions, and [`laws`] states what holds of
//! every run of the machine. Who is calling, and how much value came with the
//! call, are arguments; the transfer that an execution authorises is returned
//! to the caller, who performs it.

pub mod account;
pub mod error;
pub mod laws;
pub mod model;
pub mod wallet;
