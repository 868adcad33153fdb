//! Error classification and propagation layer for the query-serving
//! frontend of a distributed, partitioned data system.
//!
//! The frontend receives client requests, fans them out to remote storage
//! nodes, parses and validates queries, and converts row data between type
//! systems; any of these steps can fail for heterogeneous reasons. This
//! crate collapses all such failures into one closed error type that
//! preserves the causal chain back to the originating subsystem, classifies
//! every failure into a small stable set of machine-readable status codes,
//! and carries diagnostic context without losing type safety.
//!
//! The crate performs no networking, parsing, or data conversion of its
//! own: it only classifies and threads through failures produced by those
//! collaborators.

pub mod capture;
pub mod decimal;
pub mod error;
pub mod foreign;
pub mod laws;
pub mod status;
