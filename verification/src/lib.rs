//! Verified core of an index-maintenance orchestrator for SQL Server.
//!
//! The library holds the decision logic of the orchestrator: the
//! fragmentation policy, SQL statement construction with identifier
//! escaping, transient-error classification and retry planning, the
//! per-profile control bus registry, the per-database worker state
//! machine, and the run coordinator that aggregates results into a
//! summary.  All I/O (the SQL driver, timers, the history store, the
//! UI transport) stays outside; callers perform it and feed the
//! outcomes back into these state machines.
//!
//! Percentages are carried in hundredths of a percent (so `2990`
//! means 29.90%) and durations in milliseconds, keeping every
//! quantity an integer.

pub mod connect;
pub mod control;
pub mod coordinator;
pub mod events;
pub mod policy;
pub mod profiles;
pub mod retry;
pub mod sql;
pub mod text;
pub mod types;
pub mod worker;
