//! Models of the collaborator error types this layer wraps.
//!
//! The frontend collaborates with a remote-node client, a runtime-resource
//! manager, a server transport, a SQL parser, a column-datatype conversion
//! library, and a storage datatype library. Each of those subsystems
//! reports failures with an error type of its own; this layer depends only
//! on the minimal capability set every such type exposes — a display
//! string, a status-code self-classification, and an optional capture
//! site — never on a collaborator's internal structure. Each model below
//! holds exactly that capability set as plain values, one distinct type
//! per collaborator so that a wrapping variant cannot be built around the
//! wrong subsystem's failure.
//!
//! A model value is built once, at the boundary where the collaborator's
//! failure is received, and is never mutated afterwards.

use vstd::prelude::*;

use crate::status::StatusCode;
use std::backtrace::Backtrace;

verus! {

/// A failure reported by the remote-node client, either while connecting
/// to a node or while sending a request to one.
#[derive(Debug)]
pub struct ClientError {
    /// The client's own status-code self-classification.
    pub code: StatusCode,
    /// The client's display text for the failure.
    pub message: String,
    /// Where the client captured the failure, if it did.
    pub backtrace: Option<Backtrace>,
}

/// A failure reported by the runtime-resource manager.
#[derive(Debug)]
pub struct RuntimeError {
    /// The manager's own status-code self-classification.
    pub code: StatusCode,
    /// The manager's display text for the failure.
    pub message: String,
    /// Where the manager captured the failure, if it did.
    pub backtrace: Option<Backtrace>,
}

/// A failure reported by the server transport while starting a server.
#[derive(Debug)]
pub struct ServerError {
    /// The transport's own status-code self-classification.
    pub code: StatusCode,
    /// The transport's display text for the failure.
    pub message: String,
    /// Where the transport captured the failure, if it did.
    pub backtrace: Option<Backtrace>,
}

/// A failure reported by the SQL parser.
#[derive(Debug)]
pub struct SqlError {
    /// The parser's own status-code self-classification.
    pub code: StatusCode,
    /// The parser's display text for the failure.
    pub message: String,
    /// Where the parser captured the failure, if it did.
    pub backtrace: Option<Backtrace>,
}

/// A failure reported by the column-datatype conversion library.
#[derive(Debug)]
pub struct ColumnDataTypeError {
    /// The library's own status-code self-classification.
    pub code: StatusCode,
    /// The library's display text for the failure.
    pub message: String,
    /// Where the library captured the failure, if it did.
    pub backtrace: Option<Backtrace>,
}

/// A failure reported by the storage datatype library, in particular while
/// converting a column default constraint.
#[derive(Debug)]
pub struct DataTypeError {
    /// The library's own status-code self-classification.
    pub code: StatusCode,
    /// The library's display text for the failure.
    pub message: String,
    /// Where the library captured the failure, if it did.
    pub backtrace: Option<Backtrace>,
}

/// A failure of the standard address parser. It exposes only a display
/// text: no status-code self-classification and no capture site.
#[derive(Debug)]
pub struct AddrParseError {
    /// The parser's display text for the failure.
    pub message: String,
}

} // verus!
