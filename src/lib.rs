//! Bookkeeping and state-transition logic for carbon credits: a registry
//! that issues and retires credits, a marketplace that lists and sells
//! them, and a verification workflow that decides whether a project's
//! claimed reductions can be trusted.
pub mod address;
pub mod common;
pub mod marketplace;
pub mod registry;
pub mod verification;
