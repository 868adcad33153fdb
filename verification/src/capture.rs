//! The capture site stamped on every error at construction time.
//!
//! A capture site is an opaque record of where an error value was created,
//! used for diagnostics only and never inspected for control flow.

use vstd::prelude::*;

verus! {

#[verifier::external_type_specification]
#[verifier::external_body]
pub struct ExBacktrace(std::backtrace::Backtrace);

/// Relies on `std::backtrace::Backtrace::capture`: it records the call
/// stack at the point of the call. The value depends on the call site and
/// the process, so nothing is stated of it.
#[verifier::external_body]
pub(crate) fn capture_backtrace() -> std::backtrace::Backtrace {
    std::backtrace::Backtrace::capture()
}

} // verus!
