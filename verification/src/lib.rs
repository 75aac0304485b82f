//! Layered fund-forwarding library.
//!
//! A caller's deposit is routed through a chain of program-derived
//! sub-accounts before reaching the final recipient.  The library decodes
//! the request payload, derives each intermediate sub-account identity from
//! a caller-supplied seed, validates the supplied account chain against
//! those derivations, and executes the hops over a balance ledger, all
//! under verified contracts.

pub mod chain;
pub mod engine;
pub mod error;
pub mod instruction;
pub mod pda;
