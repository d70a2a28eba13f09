//! Core of a language-agnostic, ABI-stable module runtime: a handle-based
//! registry of pluggable library loaders and the libraries they load, with
//! type-checked dispatch, strict handle-validity rules, and a type-erased
//! error mechanism for reporting failures across the boundary.

pub mod errors;
pub mod fn_id;
pub mod handle_table;
pub mod loader;
pub mod loader_registry;
pub mod library_api;
pub mod library_registry;
