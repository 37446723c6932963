//! Prove-and-submit pipeline for a token contract on a proof-verifying ledger.
//!
//! An action is encoded into a blob, an execution input is built around it,
//! a proving engine produces a proof artifact, the artifact's execution
//! outcome is checked locally, and only then are the blob transaction and
//! the dependent proof transaction handed to the ledger, in that order.
pub mod action;
pub mod error;
pub mod model;
pub mod outcome;
pub mod pipeline;
pub mod runs;
