//! Trustless escrow initialization.
//!
//! One party, the initializer, hands a funded holding account over to the
//! program and records what it expects in return. The crate holds the rules of
//! that step: the checklist that a call must meet, the record that is kept,
//! and the one delegation to the asset-custody service. Every rule is stated
//! as a contract and proved.
//!
//! A call runs in two steps. [`processor::Processor::process`] reads the
//! payload and the account references, writes nothing, and answers with the
//! first broken rule or with what it stages: the record and the delegation.
//! The caller issues the delegation; [`processor::Processor::settle`] then
//! writes the record if, and only if, the delegation completed.
//!
//! - [`instruction`]: the payload of a call.
//! - [`state`]: the escrow record and its stored form.
//! - [`account`]: an account reference as plain values.
//! - [`rent`]: the rent oracle's answer on the record storage.
//! - [`custody`]: the custody service, the derived authority, the delegation.
//! - [`processor`]: the rules of a call.
//! - [`laws`]: what holds of every call.
//!
//! What the rent oracle answers, which address is derived for a program and
//! which instruction the custody service's library builds is taken from the
//! `solana-program` and `spl-token` crates: `rent` and `custody` call them
//! through a few functions whose contracts are assumed, not proved.

pub mod account;
pub mod codec;
pub mod custody;
pub mod error;
pub mod identity;
pub mod instruction;
pub mod laws;
pub mod processor;
pub mod rent;
pub mod state;
