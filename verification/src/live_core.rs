//! Orchestration of the delayed filter: bounded ingestion, quota-driven work at
//! the corrected frontier, and publication behind it.
//!
//! The core decides and keeps the books. Where numbers have to be computed it
//! hands out a piece of work and takes the result back.
pub mod agreement;
pub mod config;
pub mod decision;
pub mod drain;
pub mod finalization;
pub mod frontier;
pub mod fusion;
pub mod ingestion;
pub mod kinematics;
pub mod laws;
pub mod lifecycle;
pub mod output;
pub mod planning;
pub mod progress;
pub mod propagation;
pub mod reanchoring;
pub mod report;
pub mod runs;
pub mod smoothing;
pub mod staging;
pub mod state;
pub mod work;
