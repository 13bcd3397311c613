//! Asynchronous job execution for an OGC API - Processes service.
//!
//! A client submits an execution request for a catalogued process, receives a
//! job handle at once, polls the job's status, and later fetches its results
//! or dismisses it. This crate holds the rules of that protocol: the job state
//! machine, the job store with its conditional status update, the process
//! catalogue, offset pagination with its navigation links, and the mapping of
//! each operation onto an HTTP reply. Every function is verified against a
//! contract over a mathematical model of the data.

pub mod config;
pub mod decimal;
pub mod engine;
pub mod error;
pub mod foreign;
pub mod http;
pub mod job;
pub mod link;
pub mod paging;
pub mod registry;
pub mod status;
pub mod store;
