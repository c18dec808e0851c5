//! Client-side engine for contract-invocation transactions on a remote
//! ledger: it assembles invocation requests and authorization sets,
//! resolves fees from pre-execution results, classifies every failure
//! along the path into a stable numeric taxonomy, and leaves the actual
//! transport to the caller.

pub mod contract;
pub mod decimal;
pub mod errors;
