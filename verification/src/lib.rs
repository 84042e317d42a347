//! Edge-triggered host health alerting.
//!
//! A run observes one [`Report`](report::Report) per registered check, compares
//! each severity with the one remembered from the previous run, and produces a
//! single composite message when at least one check has become more severe.

pub mod status;
pub mod aggregate;
pub mod checks;
pub mod engine;
pub mod escalation;
pub mod message;
pub mod output;
pub mod persistence;
pub mod report;
pub mod text;
