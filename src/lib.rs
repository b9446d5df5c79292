//! Construction of the two partially authorized transactions of a trustless
//! swap of an inscription for payment: the seller's listing and the buyer's
//! combined purchase.

pub mod model;
pub mod errors;
pub mod selector;
pub mod authorization;
pub mod assembler;
pub mod provisioner;
pub mod classifier;
pub mod locator;
pub mod orchestrator;
