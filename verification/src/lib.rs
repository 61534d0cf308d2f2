//! Core logic of a document-conversion gateway: a service that accepts an
//! uploaded FictionBook document, stores it in a scratch directory under a
//! fresh identity, runs an external converter over it, and streams the
//! converted file back, while a background sweeper reclaims aged scratch
//! entries.
//!
//! This crate holds the decision logic of that service — credential checking,
//! target-format validation, scratch-file naming, the per-request pipeline
//! state machine, converter-invocation policy, and the retention sweeper's
//! deletion plan — each with a verified contract. The asynchronous HTTP and
//! filesystem plumbing around it lives outside the library and only carries
//! out the actions this logic decides on.

pub mod auth;
pub mod bytes;
pub mod format;
pub mod identity;
pub mod invoker;
pub mod pipeline;
pub mod sweeper;
