//! A multisig-gated fund-distribution ledger.
//!
//! An investment has a configuration with a lifecycle (pending, completed,
//! deactivated), three authorization lists, and a vault. Contribution
//! records are added while it is pending. Once it is completed, a batch of
//! records is paid in two phases: an estimate plans the shares and stores
//! the plan in a cache; an execution, authorized by three of five, pays the
//! plan out and seals it.
//!
//! The library decides; it moves nothing. An operation takes the stored
//! values, the accounts that came with the call and the time, and returns
//! the new values and the transfers that are due. Every operation states in
//! its contract which error it returns on which input, and that a failed
//! operation changes nothing.
//!
//! - [`keys`], [`address`]: addresses, and where each entity is stored.
//! - [`state`], [`schedule`], [`authorization`]: the stored values, the
//!   accepted schedules, the quorum.
//! - [`lifecycle`], [`ledger`]: operations on the configuration and on
//!   records.
//! - [`payout`], [`batch`], [`estimate`]: shares, the records of a batch,
//!   plans.
//! - [`transfer`], [`settlement`], [`execute`]: transfers, what a list of
//!   them moves, the payout of a plan.
//! - [`vault`]: deposits and withdrawals.
//! - [`instructions`]: the operations under one path.

pub mod address;
pub mod authorization;
pub mod batch;
pub mod constants;
pub mod error;
pub mod estimate;
pub mod execute;
pub mod instructions;
pub mod keys;
pub mod ledger;
pub mod lifecycle;
pub mod payout;
pub mod schedule;
pub mod settlement;
pub mod state;
pub mod transfer;
pub mod vault;
