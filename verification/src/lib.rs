//! An upgradeable three-tier ledger application: a stable `Proxy` entry
//! point, a replaceable `Implementation` holding the business rules, and a
//! long-lived `State` store holding the durable data.
//!
//! The heart of the library is the cross-component authorization and
//! call-forwarding protocol: which component may invoke which mutating
//! operation on which other component, how the three components learn each
//! other's addresses exactly once, how unrecognized calls are forwarded
//! verbatim with byte-exact preservation of success and failure payloads,
//! and how a global pause flag gates every business mutation.
//!
//! The host ledger runtime (call execution, caller identity, atomic
//! rollback of a failed synchronous call chain) is an external collaborator;
//! the `chain` module models a deployment of the three components on such a
//! host, and every entry point is specified and proved against that model.

pub mod addr;
pub mod codec;
pub mod chain;
pub mod data;
pub mod dispatch;
pub mod error;
pub mod implementation;
pub mod laws;
pub mod proxy;
pub mod players;
pub mod state;
