//! A small deterministic state-transition engine: three state modules
//! (accounts and nonces, balances, content claims) composed into a runtime
//! that executes blocks of calls in order.

pub mod balances;
pub mod proof_of_existence;
pub mod runtime;
pub mod storage;
pub mod support;
pub mod system;
pub mod types;

pub use runtime::{Runtime, RuntimeCall};
