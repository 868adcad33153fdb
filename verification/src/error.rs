//! The closed error taxonomy of the frontend and its classifier.
//!
//! Every failure the frontend can meet is one variant of [`Error`]: either
//! a leaf failure native to this layer (a message plus a capture site) or
//! a wrapping failure that embeds the error value of exactly one
//! collaborator subsystem plus optional local context. An `Error` value is
//! created once, at the point a collaborator call fails or a local
//! precondition is violated, and then propagates by value, unchanged,
//! until a boundary extracts its status code or renders its display text.

use vstd::prelude::*;
use vstd::string::StringExecFns;

use crate::capture::capture_backtrace;
use crate::decimal::{append_decimal, spec_decimal};
use crate::foreign::{
    AddrParseError, ClientError, ColumnDataTypeError, DataTypeError, RuntimeError, ServerError,
    SqlError,
};
use crate::status::StatusCode;
use std::backtrace::Backtrace;

verus! {

/// The closed set of frontend failures.
///
/// Wrapping variants own their single foreign error by value; local
/// context fields are descriptive scalars, fixed at construction. Every
/// variant carries a capture site stamped when it was built, so that a
/// failure can be root-caused without stack unwinding whether or not the
/// collaborator recorded one of its own.
#[derive(Debug)]
pub enum Error {
    /// Connecting to a remote storage node failed.
    ConnectDatanode { addr: String, source: ClientError, backtrace: Backtrace },
    /// A request to a remote storage node failed.
    RequestDatanode { source: ClientError, backtrace: Backtrace },
    /// The runtime-resource manager reported a failure.
    RuntimeResource { source: RuntimeError, backtrace: Backtrace },
    /// A server could not be started.
    StartServer { source: ServerError, backtrace: Backtrace },
    /// A listen address could not be parsed.
    ParseAddr { addr: String, source: AddrParseError, backtrace: Backtrace },
    /// The SQL parser reported a failure.
    ParseSql { source: SqlError, backtrace: Backtrace },
    /// A column datatype could not be converted.
    ColumnDataType { source: ColumnDataTypeError, backtrace: Backtrace },
    /// A column default constraint could not be converted.
    ConvertColumnDefaultConstraint {
        column_name: String,
        source: DataTypeError,
        backtrace: Backtrace,
    },
    /// A statement was recognised as SQL but is invalid here.
    InvalidSql { err_msg: String, backtrace: Backtrace },
    /// A frontend invariant was violated: a logic defect, not bad input.
    IllegalFrontendState { err_msg: String, backtrace: Backtrace },
    /// A remote call returned less than it promised.
    IncompleteGrpcResult { err_msg: String, backtrace: Backtrace },
    /// A time-series protocol put could not be executed.
    ExecOpentsdbPut { reason: String, backtrace: Backtrace },
    /// A partition column named by a request does not exist.
    FindPartitionColumn { column_name: String, backtrace: Backtrace },
    /// No region could be resolved for a request.
    FindRegion { reason: String, backtrace: Backtrace },
    /// An insert request has the wrong shape.
    InvalidInsertRequest { reason: String, backtrace: Backtrace },
    /// A request supplied the wrong number of region keys.
    RegionKeysSize { expect: usize, actual: usize, backtrace: Backtrace },
}

/// The outcome type of every frontend boundary operation.
pub type Result<T> = core::result::Result<T, Error>;

impl Error {
    /// The classification policy: client-input failures map to
    /// `InvalidArguments`, frontend-owned failures to `Internal`, violated
    /// frontend invariants to `Unexpected`, and the remaining wrapping
    /// variants delegate to the foreign error's own self-classification.
    pub open spec fn spec_status_code(&self) -> StatusCode {
        match self {
            Error::ConnectDatanode { .. } => StatusCode::InvalidArguments,
            Error::ParseAddr { .. } => StatusCode::InvalidArguments,
            Error::InvalidSql { .. } => StatusCode::InvalidArguments,
            Error::FindRegion { .. } => StatusCode::InvalidArguments,
            Error::InvalidInsertRequest { .. } => StatusCode::InvalidArguments,
            Error::FindPartitionColumn { .. } => StatusCode::InvalidArguments,
            Error::RegionKeysSize { .. } => StatusCode::InvalidArguments,
            Error::RuntimeResource { source, .. } => source.code,
            Error::StartServer { source, .. } => source.code,
            Error::ParseSql { source, .. } => source.code,
            Error::ConvertColumnDefaultConstraint { source, .. } => source.code,
            Error::RequestDatanode { source, .. } => source.code,
            Error::ColumnDataType { .. } => StatusCode::Internal,
            Error::IllegalFrontendState { .. } => StatusCode::Unexpected,
            Error::IncompleteGrpcResult { .. } => StatusCode::Unexpected,
            Error::ExecOpentsdbPut { .. } => StatusCode::Internal,
        }
    }

    /// The status code a client response or retry policy should use for
    /// this failure. Total over the closed variant set and pure: it never
    /// fails and reads nothing but the variant and, for delegating
    /// variants, the foreign error's own code.
    pub fn status_code(&self) -> (code: StatusCode)
        ensures
            code == self.spec_status_code(),
    {
        match self {
            Error::ConnectDatanode { .. }
            | Error::ParseAddr { .. }
            | Error::InvalidSql { .. }
            | Error::FindRegion { .. }
            | Error::InvalidInsertRequest { .. }
            | Error::FindPartitionColumn { .. }
            | Error::RegionKeysSize { .. } => StatusCode::InvalidArguments,
            Error::RuntimeResource { source, .. } => source.code,
            Error::StartServer { source, .. } => source.code,
            Error::ParseSql { source, .. } => source.code,
            Error::ConvertColumnDefaultConstraint { source, .. } => source.code,
            Error::RequestDatanode { source, .. } => source.code,
            Error::ColumnDataType { .. } => StatusCode::Internal,
            Error::IllegalFrontendState { .. } | Error::IncompleteGrpcResult { .. } => {
                StatusCode::Unexpected
            },
            Error::ExecOpentsdbPut { .. } => StatusCode::Internal,
        }
    }

    /// The display text of this failure: the failure kind, every local
    /// context field and, for a wrapping variant, the wrapped foreign
    /// error's display text, verbatim.
    pub open spec fn spec_display(&self) -> Seq<char> {
        match self {
            Error::ConnectDatanode { addr, source, .. } => "Failed to connect Datanode at "@ + addr@
                + ", source: "@ + source.message@,
            Error::RequestDatanode { source, .. } => "Failed to request Datanode, source: "@
                + source.message@,
            Error::RuntimeResource { source, .. } => "Runtime resource error, source: "@
                + source.message@,
            Error::StartServer { source, .. } => "Failed to start server, source: "@
                + source.message@,
            Error::ParseAddr { addr, source, .. } => "Failed to parse address "@ + addr@
                + ", source: "@ + source.message@,
            Error::ParseSql { source, .. } => "Failed to parse SQL, source: "@ + source.message@,
            Error::ColumnDataType { source, .. } => "Column datatype error, source: "@
                + source.message@,
            Error::ConvertColumnDefaultConstraint { column_name, source, .. } =>
                "Failed to convert column default constraint, column: "@ + column_name@
                + ", source: "@ + source.message@,
            Error::InvalidSql { err_msg, .. } => "Invalid SQL, error: "@ + err_msg@,
            Error::IllegalFrontendState { err_msg, .. } => "Illegal Frontend state: "@ + err_msg@,
            Error::IncompleteGrpcResult { err_msg, .. } => "Incomplete GRPC result: "@ + err_msg@,
            Error::ExecOpentsdbPut { reason, .. } => "Failed to execute OpenTSDB put, reason: "@
                + reason@,
            Error::FindPartitionColumn { column_name, .. } => "Failed to find partition column: "@
                + column_name@,
            Error::FindRegion { reason, .. } => "Failed to find region, reason: "@ + reason@,
            Error::InvalidInsertRequest { reason, .. } => "Invalid InsertRequest, reason: "@
                + reason@,
            Error::RegionKeysSize { expect, actual, .. } => "Expect "@
                + spec_decimal(*expect as nat) + " region keys, actual "@
                + spec_decimal(*actual as nat),
        }
    }

    /// Renders the human-readable display text of this failure, exactly as
    /// [`Self::spec_display`] states it.
    pub fn display_string(&self) -> (s: String)
        ensures
            s@ == self.spec_display(),
    {
        match self {
            Error::ConnectDatanode { addr, source, .. } => {
                let mut s = String::from_str("Failed to connect Datanode at ");
                s.append(addr.as_str());
                s.append(", source: ");
                s.append(source.message.as_str());
                s
            },
            Error::RequestDatanode { source, .. } => {
                let mut s = String::from_str("Failed to request Datanode, source: ");
                s.append(source.message.as_str());
                s
            },
            Error::RuntimeResource { source, .. } => {
                let mut s = String::from_str("Runtime resource error, source: ");
                s.append(source.message.as_str());
                s
            },
            Error::StartServer { source, .. } => {
                let mut s = String::from_str("Failed to start server, source: ");
                s.append(source.message.as_str());
                s
            },
            Error::ParseAddr { addr, source, .. } => {
                let mut s = String::from_str("Failed to parse address ");
                s.append(addr.as_str());
                s.append(", source: ");
                s.append(source.message.as_str());
                s
            },
            Error::ParseSql { source, .. } => {
                let mut s = String::from_str("Failed to parse SQL, source: ");
                s.append(source.message.as_str());
                s
            },
            Error::ColumnDataType { source, .. } => {
                let mut s = String::from_str("Column datatype error, source: ");
                s.append(source.message.as_str());
                s
            },
            Error::ConvertColumnDefaultConstraint { column_name, source, .. } => {
                let mut s = String::from_str(
                    "Failed to convert column default constraint, column: ",
                );
                s.append(column_name.as_str());
                s.append(", source: ");
                s.append(source.message.as_str());
                s
            },
            Error::InvalidSql { err_msg, .. } => {
                let mut s = String::from_str("Invalid SQL, error: ");
                s.append(err_msg.as_str());
                s
            },
            Error::IllegalFrontendState { err_msg, .. } => {
                let mut s = String::from_str("Illegal Frontend state: ");
                s.append(err_msg.as_str());
                s
            },
            Error::IncompleteGrpcResult { err_msg, .. } => {
                let mut s = String::from_str("Incomplete GRPC result: ");
                s.append(err_msg.as_str());
                s
            },
            Error::ExecOpentsdbPut { reason, .. } => {
                let mut s = String::from_str("Failed to execute OpenTSDB put, reason: ");
                s.append(reason.as_str());
                s
            },
            Error::FindPartitionColumn { column_name, .. } => {
                let mut s = String::from_str("Failed to find partition column: ");
                s.append(column_name.as_str());
                s
            },
            Error::FindRegion { reason, .. } => {
                let mut s = String::from_str("Failed to find region, reason: ");
                s.append(reason.as_str());
                s
            },
            Error::InvalidInsertRequest { reason, .. } => {
                let mut s = String::from_str("Invalid InsertRequest, reason: ");
                s.append(reason.as_str());
                s
            },
            Error::RegionKeysSize { expect, actual, .. } => {
                let mut s = String::from_str("Expect ");
                append_decimal(&mut s, *expect);
                s.append(" region keys, actual ");
                append_decimal(&mut s, *actual);
                s
            },
        }
    }

    /// The capture site this failure carries. Every variant has one: a
    /// leaf variant's own stamp; for a wrapping variant the foreign one
    /// when the collaborator recorded one, so that the chain leads back to
    /// the originating subsystem, and otherwise the stamp made here when
    /// the variant was built.
    pub open spec fn spec_backtrace(&self) -> Backtrace {
        match self {
            Error::ConnectDatanode { source, backtrace, .. } => match source.backtrace {
                Option::Some(b) => b,
                Option::None => *backtrace,
            },
            Error::RequestDatanode { source, backtrace } => match source.backtrace {
                Option::Some(b) => b,
                Option::None => *backtrace,
            },
            Error::RuntimeResource { source, backtrace } => match source.backtrace {
                Option::Some(b) => b,
                Option::None => *backtrace,
            },
            Error::StartServer { source, backtrace } => match source.backtrace {
                Option::Some(b) => b,
                Option::None => *backtrace,
            },
            Error::ParseAddr { backtrace, .. } => *backtrace,
            Error::ParseSql { source, backtrace } => match source.backtrace {
                Option::Some(b) => b,
                Option::None => *backtrace,
            },
            Error::ColumnDataType { source, backtrace } => match source.backtrace {
                Option::Some(b) => b,
                Option::None => *backtrace,
            },
            Error::ConvertColumnDefaultConstraint { source, backtrace, .. } => match source
                .backtrace {
                Option::Some(b) => b,
                Option::None => *backtrace,
            },
            Error::InvalidSql { backtrace, .. } => *backtrace,
            Error::IllegalFrontendState { backtrace, .. } => *backtrace,
            Error::IncompleteGrpcResult { backtrace, .. } => *backtrace,
            Error::ExecOpentsdbPut { backtrace, .. } => *backtrace,
            Error::FindPartitionColumn { backtrace, .. } => *backtrace,
            Error::FindRegion { backtrace, .. } => *backtrace,
            Error::InvalidInsertRequest { backtrace, .. } => *backtrace,
            Error::RegionKeysSize { backtrace, .. } => *backtrace,
        }
    }

    /// The capture site of this failure; used for diagnostics only, never
    /// for control flow. Every variant yields one.
    pub fn backtrace_opt(&self) -> (r: Option<&Backtrace>)
        ensures
            r matches Some(b) && b == self.spec_backtrace(),
    {
        match self {
            Error::ConnectDatanode { source, backtrace, .. } => match &source.backtrace {
                Option::Some(b) => Option::Some(b),
                Option::None => Option::Some(backtrace),
            },
            Error::RequestDatanode { source, backtrace } => match &source.backtrace {
                Option::Some(b) => Option::Some(b),
                Option::None => Option::Some(backtrace),
            },
            Error::RuntimeResource { source, backtrace } => match &source.backtrace {
                Option::Some(b) => Option::Some(b),
                Option::None => Option::Some(backtrace),
            },
            Error::StartServer { source, backtrace } => match &source.backtrace {
                Option::Some(b) => Option::Some(b),
                Option::None => Option::Some(backtrace),
            },
            Error::ParseAddr { backtrace, .. } => Option::Some(backtrace),
            Error::ParseSql { source, backtrace } => match &source.backtrace {
                Option::Some(b) => Option::Some(b),
                Option::None => Option::Some(backtrace),
            },
            Error::ColumnDataType { source, backtrace } => match &source.backtrace {
                Option::Some(b) => Option::Some(b),
                Option::None => Option::Some(backtrace),
            },
            Error::ConvertColumnDefaultConstraint { source, backtrace, .. } => match &source
                .backtrace {
                Option::Some(b) => Option::Some(b),
                Option::None => Option::Some(backtrace),
            },
            Error::InvalidSql { backtrace, .. } => Option::Some(backtrace),
            Error::IllegalFrontendState { backtrace, .. } => Option::Some(backtrace),
            Error::IncompleteGrpcResult { backtrace, .. } => Option::Some(backtrace),
            Error::ExecOpentsdbPut { backtrace, .. } => Option::Some(backtrace),
            Error::FindPartitionColumn { backtrace, .. } => Option::Some(backtrace),
            Error::FindRegion { backtrace, .. } => Option::Some(backtrace),
            Error::InvalidInsertRequest { backtrace, .. } => Option::Some(backtrace),
            Error::RegionKeysSize { backtrace, .. } => Option::Some(backtrace),
        }
    }

    /// Builds a remote-node connection failure around the client's own
    /// error, recording the address that could not be reached, and stamps
    /// the capture site.
    pub fn connect_datanode(addr: String, source: ClientError) -> (e: Error)
        ensures
            e matches Error::ConnectDatanode { addr: a, source: s, .. } && a == addr
                && s == source,
    {
        Error::ConnectDatanode { addr, source, backtrace: capture_backtrace() }
    }

    /// Builds a remote-node request failure around the client's own error
    /// and stamps the capture site.
    pub fn request_datanode(source: ClientError) -> (e: Error)
        ensures
            e matches Error::RequestDatanode { source: s, .. } && s == source,
    {
        Error::RequestDatanode { source, backtrace: capture_backtrace() }
    }

    /// Builds a runtime-resource failure around the manager's own error
    /// and stamps the capture site.
    pub fn runtime_resource(source: RuntimeError) -> (e: Error)
        ensures
            e matches Error::RuntimeResource { source: s, .. } && s == source,
    {
        Error::RuntimeResource { source, backtrace: capture_backtrace() }
    }

    /// Builds a server-startup failure around the transport's own error
    /// and stamps the capture site.
    pub fn start_server(source: ServerError) -> (e: Error)
        ensures
            e matches Error::StartServer { source: s, .. } && s == source,
    {
        Error::StartServer { source, backtrace: capture_backtrace() }
    }

    /// Builds an address-parse failure around the standard parser's error,
    /// recording the address text that could not be parsed, and stamps the
    /// capture site.
    pub fn parse_addr(addr: String, source: AddrParseError) -> (e: Error)
        ensures
            e matches Error::ParseAddr { addr: a, source: s, .. } && a == addr && s == source,
    {
        Error::ParseAddr { addr, source, backtrace: capture_backtrace() }
    }

    /// Builds a SQL-parse failure around the parser's own error and stamps
    /// the capture site.
    pub fn parse_sql(source: SqlError) -> (e: Error)
        ensures
            e matches Error::ParseSql { source: s, .. } && s == source,
    {
        Error::ParseSql { source, backtrace: capture_backtrace() }
    }

    /// Builds a column-datatype failure around the conversion library's
    /// own error and stamps the capture site.
    pub fn column_datatype(source: ColumnDataTypeError) -> (e: Error)
        ensures
            e matches Error::ColumnDataType { source: s, .. } && s == source,
    {
        Error::ColumnDataType { source, backtrace: capture_backtrace() }
    }

    /// Builds a default-constraint conversion failure around the datatype
    /// library's own error, recording the column concerned, and stamps the
    /// capture site.
    pub fn convert_column_default_constraint(column_name: String, source: DataTypeError) -> (e:
        Error)
        ensures
            e matches Error::ConvertColumnDefaultConstraint { column_name: c, source: s, .. }
                && c == column_name && s == source,
    {
        Error::ConvertColumnDefaultConstraint {
            column_name,
            source,
            backtrace: capture_backtrace(),
        }
    }

    /// Builds an invalid-SQL failure and stamps the capture site.
    pub fn invalid_sql(err_msg: String) -> (e: Error)
        ensures
            e matches Error::InvalidSql { err_msg: m, .. } && m == err_msg,
    {
        Error::InvalidSql { err_msg, backtrace: capture_backtrace() }
    }

    /// Builds an illegal-frontend-state failure and stamps the capture
    /// site.
    pub fn illegal_frontend_state(err_msg: String) -> (e: Error)
        ensures
            e matches Error::IllegalFrontendState { err_msg: m, .. } && m == err_msg,
    {
        Error::IllegalFrontendState { err_msg, backtrace: capture_backtrace() }
    }

    /// Builds an incomplete-remote-result failure and stamps the capture
    /// site.
    pub fn incomplete_grpc_result(err_msg: String) -> (e: Error)
        ensures
            e matches Error::IncompleteGrpcResult { err_msg: m, .. } && m == err_msg,
    {
        Error::IncompleteGrpcResult { err_msg, backtrace: capture_backtrace() }
    }

    /// Builds a time-series-protocol write failure and stamps the capture
    /// site.
    pub fn exec_opentsdb_put(reason: String) -> (e: Error)
        ensures
            e matches Error::ExecOpentsdbPut { reason: r, .. } && r == reason,
    {
        Error::ExecOpentsdbPut { reason, backtrace: capture_backtrace() }
    }

    /// Builds a partition-column lookup failure and stamps the capture
    /// site.
    pub fn find_partition_column(column_name: String) -> (e: Error)
        ensures
            e matches Error::FindPartitionColumn { column_name: c, .. } && c == column_name,
    {
        Error::FindPartitionColumn { column_name, backtrace: capture_backtrace() }
    }

    /// Builds a region lookup failure and stamps the capture site.
    pub fn find_region(reason: String) -> (e: Error)
        ensures
            e matches Error::FindRegion { reason: r, .. } && r == reason,
    {
        Error::FindRegion { reason, backtrace: capture_backtrace() }
    }

    /// Builds an invalid-insert-request failure and stamps the capture
    /// site.
    pub fn invalid_insert_request(reason: String) -> (e: Error)
        ensures
            e matches Error::InvalidInsertRequest { reason: r, .. } && r == reason,
    {
        Error::InvalidInsertRequest { reason, backtrace: capture_backtrace() }
    }

    /// Builds a region-key count mismatch failure and stamps the capture
    /// site.
    pub fn region_keys_size(expect: usize, actual: usize) -> (e: Error)
        ensures
            e matches Error::RegionKeysSize { expect: x, actual: y, .. } && x == expect
                && y == actual,
    {
        Error::RegionKeysSize { expect, actual, backtrace: capture_backtrace() }
    }
}

} // verus!
