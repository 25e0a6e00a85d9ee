//! Reconciliation of a package payload with a remote device-management
//! service: digest snapshots, request construction, policy impact scanning,
//! bounded upload retry, digest convergence polling and the update workflow.
//!
//! Every decision the updater takes is a total function in this crate, stated
//! over mathematical models of its inputs. Network and file access live
//! outside and hand plain values in.

pub mod checksum;
pub mod cli;
pub mod credentials;
pub mod digest;
pub mod error;
pub mod json;
pub mod package;
pub mod policy;
pub mod poll;
pub mod request;
pub mod text;
pub mod upload;
pub mod workflow;
