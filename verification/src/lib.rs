//! Decision logic of an operator that mirrors password-vault items into
//! cluster Secrets: every rule is a function with a proved contract.

pub mod cache;
pub mod config;
pub mod json;
pub mod policy;
pub mod reconcile;
pub mod refresh;
pub mod resource;
pub mod session;
pub mod string_map;
pub mod supervisor;
pub mod vault;
