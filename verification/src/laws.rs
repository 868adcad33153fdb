//! The laws the taxonomy and its classifier obey, stated over the spec
//! functions of [`crate::error::Error`] and proved for every value of the
//! type.

use vstd::prelude::*;

use crate::error::Error;
use crate::status::StatusCode;

verus! {

/// `needle` occurs contiguously somewhere inside `hay`.
pub open spec fn seq_contains_seq(hay: Seq<char>, needle: Seq<char>) -> bool {
    exists|i: int|
        0 <= i && i + needle.len() <= hay.len() && #[trigger] hay.subrange(i, i + needle.len())
            == needle
}

impl Error {
    /// This variant wraps a foreign error value.
    pub open spec fn is_wrapping(&self) -> bool {
        match self {
            Error::ConnectDatanode { .. } => true,
            Error::RequestDatanode { .. } => true,
            Error::RuntimeResource { .. } => true,
            Error::StartServer { .. } => true,
            Error::ParseAddr { .. } => true,
            Error::ParseSql { .. } => true,
            Error::ColumnDataType { .. } => true,
            Error::ConvertColumnDefaultConstraint { .. } => true,
            _ => false,
        }
    }

    /// This variant's classification is delegated to the wrapped foreign
    /// error's own self-classification rather than fixed by the table.
    pub open spec fn is_delegating(&self) -> bool {
        ||| self is RequestDatanode
        ||| self is RuntimeResource
        ||| self is StartServer
        ||| self is ParseSql
        ||| self is ConvertColumnDefaultConstraint
    }

    /// The display text of the wrapped foreign error.
    pub open spec fn spec_source_message(&self) -> Seq<char>
        recommends
            self.is_wrapping(),
    {
        match self {
            Error::ConnectDatanode { source, .. } => source.message@,
            Error::RequestDatanode { source, .. } => source.message@,
            Error::RuntimeResource { source, .. } => source.message@,
            Error::StartServer { source, .. } => source.message@,
            Error::ParseAddr { source, .. } => source.message@,
            Error::ParseSql { source, .. } => source.message@,
            Error::ColumnDataType { source, .. } => source.message@,
            Error::ConvertColumnDefaultConstraint { source, .. } => source.message@,
            _ => Seq::<char>::empty(),
        }
    }

    /// The wrapped foreign error's own status-code self-classification,
    /// for the variants whose foreign error exposes one.
    pub open spec fn spec_source_code(&self) -> StatusCode
        recommends
            self.is_wrapping() && !(self is ParseAddr),
    {
        match self {
            Error::ConnectDatanode { source, .. } => source.code,
            Error::RequestDatanode { source, .. } => source.code,
            Error::RuntimeResource { source, .. } => source.code,
            Error::StartServer { source, .. } => source.code,
            Error::ParseSql { source, .. } => source.code,
            Error::ColumnDataType { source, .. } => source.code,
            Error::ConvertColumnDefaultConstraint { source, .. } => source.code,
            _ => arbitrary(),
        }
    }
}

/// Law: the classification table, total over the closed variant set.
/// Failures attributable to malformed client input map to
/// `InvalidArguments`; the column-datatype and time-series-protocol write
/// failures are frontend-owned and map to the fixed `Internal`; violated
/// frontend invariants map to `Unexpected`; every other wrapping variant
/// delegates to its foreign error's own code.
pub proof fn lemma_status_code_policy(e: &Error)
    ensures
        e is ConnectDatanode ==> e.spec_status_code() == StatusCode::InvalidArguments,
        e is ParseAddr ==> e.spec_status_code() == StatusCode::InvalidArguments,
        e is InvalidSql ==> e.spec_status_code() == StatusCode::InvalidArguments,
        e is FindRegion ==> e.spec_status_code() == StatusCode::InvalidArguments,
        e is InvalidInsertRequest ==> e.spec_status_code() == StatusCode::InvalidArguments,
        e is FindPartitionColumn ==> e.spec_status_code() == StatusCode::InvalidArguments,
        e is RegionKeysSize ==> e.spec_status_code() == StatusCode::InvalidArguments,
        e is ColumnDataType ==> e.spec_status_code() == StatusCode::Internal,
        e is ExecOpentsdbPut ==> e.spec_status_code() == StatusCode::Internal,
        e is IllegalFrontendState ==> e.spec_status_code() == StatusCode::Unexpected,
        e is IncompleteGrpcResult ==> e.spec_status_code() == StatusCode::Unexpected,
        e.is_delegating() ==> e.spec_status_code() == e.spec_source_code(),
{
}

/// Law: delegation. For every wrapping variant whose classification the
/// table delegates, the classifier returns exactly the wrapped foreign
/// error's own status code, whatever the local context fields hold. The
/// remote-node connect, address-parse and column-datatype variants are
/// deliberately not delegated: the table fixes their codes.
pub proof fn lemma_classification_delegates(e: &Error)
    requires
        e.is_delegating(),
    ensures
        e.spec_status_code() == e.spec_source_code(),
{
}

/// Law: chain visibility. The display text of a wrapping variant contains
/// the wrapped foreign error's display text verbatim as a contiguous part,
/// and is strictly longer than it: the chain is visible and never
/// swallowed.
pub proof fn lemma_display_chain_visible(e: &Error)
    requires
        e.is_wrapping(),
    ensures
        seq_contains_seq(e.spec_display(), e.spec_source_message()),
        e.spec_display().len() > e.spec_source_message().len(),
{
    let hay = e.spec_display();
    let m = e.spec_source_message();
    match e {
        Error::ConnectDatanode { addr, .. } => {
            reveal_strlit("Failed to connect Datanode at ");
            let pre = "Failed to connect Datanode at "@ + addr@ + ", source: "@;
            assert(hay == pre + m);
            assert(hay.subrange(pre.len() as int, pre.len() as int + m.len() as int) =~= m);
        },
        Error::RequestDatanode { .. } => {
            reveal_strlit("Failed to request Datanode, source: ");
            let pre = "Failed to request Datanode, source: "@;
            assert(hay == pre + m);
            assert(hay.subrange(pre.len() as int, pre.len() as int + m.len() as int) =~= m);
        },
        Error::RuntimeResource { .. } => {
            reveal_strlit("Runtime resource error, source: ");
            let pre = "Runtime resource error, source: "@;
            assert(hay == pre + m);
            assert(hay.subrange(pre.len() as int, pre.len() as int + m.len() as int) =~= m);
        },
        Error::StartServer { .. } => {
            reveal_strlit("Failed to start server, source: ");
            let pre = "Failed to start server, source: "@;
            assert(hay == pre + m);
            assert(hay.subrange(pre.len() as int, pre.len() as int + m.len() as int) =~= m);
        },
        Error::ParseAddr { addr, .. } => {
            reveal_strlit("Failed to parse address ");
            let pre = "Failed to parse address "@ + addr@ + ", source: "@;
            assert(hay == pre + m);
            assert(hay.subrange(pre.len() as int, pre.len() as int + m.len() as int) =~= m);
        },
        Error::ParseSql { .. } => {
            reveal_strlit("Failed to parse SQL, source: ");
            let pre = "Failed to parse SQL, source: "@;
            assert(hay == pre + m);
            assert(hay.subrange(pre.len() as int, pre.len() as int + m.len() as int) =~= m);
        },
        Error::ColumnDataType { .. } => {
            reveal_strlit("Column datatype error, source: ");
            let pre = "Column datatype error, source: "@;
            assert(hay == pre + m);
            assert(hay.subrange(pre.len() as int, pre.len() as int + m.len() as int) =~= m);
        },
        Error::ConvertColumnDefaultConstraint { column_name, .. } => {
            reveal_strlit("Failed to convert column default constraint, column: ");
            let pre = "Failed to convert column default constraint, column: "@ + column_name@
                + ", source: "@;
            assert(hay == pre + m);
            assert(hay.subrange(pre.len() as int, pre.len() as int + m.len() as int) =~= m);
        },
        _ => {
            assert(false);
        },
    }
}

} // verus!
