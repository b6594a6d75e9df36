//! Job orchestration core for short-lived containerized test runs.
//!
//! The library models the orchestration logic as pure, verified functions:
//! input validation, deterministic workload naming, manifest construction,
//! status derivation from workload and pod conditions, and the decision
//! state machines behind log retrieval, run monitoring and client
//! authentication. Network and database drivers live outside the library
//! and feed observed events into these functions.

pub mod client;
pub mod clock;
pub mod facade;
pub mod logs;
pub mod manifest;
pub mod model;
pub mod monitor;
pub mod naming;
pub mod records;
pub mod status;
pub mod sync;
pub mod text;
pub mod validation;
