//! A message-acceptance barrier for a cross-consensus messaging protocol.
//!
//! Given an inbound program (an ordered sequence of instructions to run on
//! behalf of a remote origin) and the declared origin identity, the barrier
//! decides whether the local system is willing to execute the program, and
//! if so normalizes its declared resource budget to what the executor is
//! prepared to spend. The decision runs three stages in order, stopping at
//! the first failure: an origin authorization check against a configured
//! allow-set, a strict structural check of the first three instructions,
//! and a reconciliation of the declared two-dimensional weight budget with
//! the caller's ceiling.

pub mod barrier;
pub mod instruction;
pub mod location;
pub mod weight;
