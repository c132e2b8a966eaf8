//! Builds the messages by which a parachain stakes on its relay chain.
//!
//! A message withdraws a fee from the chain's account on the relay chain,
//! buys execution with it, dispatches one or two encoded calls, and hands
//! back what is left of the fee. It also asks the relay chain to report the
//! outcome, so that a local call can run when the report arrives.
//!
//! - `codec`: the integer encodings that calls are made of.
//! - `ump`: the calls of the relay chain and their wire format.
//! - `location`: cross-chain addresses and the return path between them.
//! - `message`: instructions, messages and their fixed slots.
//! - `pallet`: configuration, the table of weights and fees, and the steps
//!   that extend a message.
//! - `operation`: the staking operations, stage by stage.

pub mod codec;
pub mod location;
pub mod message;
pub mod operation;
pub mod pallet;
pub mod ump;
