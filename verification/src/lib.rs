//! Verified core of a disposable PostgreSQL test-database fixture.
//!
//! A fixture owns one throwaway database: it is created under a fresh random
//! name, migrated, handed to test code through connection pools, and dropped
//! again when the fixture goes away. This crate decides what is done and in
//! which order; it performs no I/O itself. The caller carries out each
//! [`action::Action`] and reports whether it succeeded.

pub mod action;
pub mod endpoint;
pub mod fixture;
pub mod name;
pub mod provision;
pub mod statement;
pub mod teardown;
