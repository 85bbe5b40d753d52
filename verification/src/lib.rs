//! Core of a synthetic-workload generator for a sharded document database:
//! the wire protocol of the cluster gateway, the document synthesizer, the
//! topology reconciler and the batch load scheduler.
//!
//! The crate performs no I/O. A driver sends the requests built here over
//! HTTP and hands the responses back; every decision in between is made, and
//! proved, in this library.

pub mod arangodb;
pub mod cluster;
pub mod config;
pub mod crud;
pub mod reconciler;
pub mod scheduler;
pub mod synthesizer;
pub mod text;
