//! The shared status-code enumeration consumed by client responses and
//! retry/backoff policies.
//!
//! The codes are pure values: this layer only assigns and forwards them,
//! it never ranks or orders them.

use vstd::prelude::*;

verus! {

/// Machine-readable classification of a failure, shared across the whole
/// system. `InvalidArguments` marks failures attributable to malformed
/// client input, `Unexpected` marks violated internal invariants (a bug,
/// not bad input), and `Internal` marks failures owned by this process.
/// The remaining codes are self-reported by collaborator subsystems and
/// are forwarded unchanged.
#[derive(Clone, Copy, Debug, PartialEq, Eq, Structural)]
pub enum StatusCode {
    /// No error.
    Success,
    /// A failure that could not be classified further.
    Unknown,
    /// The requested operation is not supported.
    Unsupported,
    /// An internal invariant was violated: a logic defect, not bad input.
    Unexpected,
    /// A failure owned by this process rather than by the client.
    Internal,
    /// The client supplied malformed input; it may correct and retry.
    InvalidArguments,
    /// A statement could not be parsed.
    InvalidSyntax,
    /// A storage node is not reachable or not serving.
    StorageUnavailable,
    /// The process ran out of a runtime resource (threads, tasks).
    RuntimeResourcesExhausted,
}

} // verus!
