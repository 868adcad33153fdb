//! The classifier maps every variant to the status code the policy
//! assigns it, and delegates to the foreign error's own code exactly
//! where the policy says so.

use frontend_error::error::Error;
use frontend_error::foreign::{
    AddrParseError, ClientError, ColumnDataTypeError, DataTypeError, RuntimeError, ServerError,
    SqlError,
};
use frontend_error::status::StatusCode;

fn client_error(code: StatusCode) -> ClientError {
    ClientError { code, message: String::from("node unreachable"), backtrace: None }
}

#[test]
fn connect_datanode_is_invalid_arguments() {
    // Fixed mapping: the client's own code is not consulted here.
    let e = Error::connect_datanode(
        String::from("127.0.0.1:3001"),
        client_error(StatusCode::StorageUnavailable),
    );
    assert_eq!(e.status_code(), StatusCode::InvalidArguments);
}

#[test]
fn parse_addr_is_invalid_arguments() {
    let e = Error::parse_addr(
        String::from("not-an-address"),
        AddrParseError { message: String::from("invalid socket address syntax") },
    );
    assert_eq!(e.status_code(), StatusCode::InvalidArguments);
}

#[test]
fn invalid_sql_is_invalid_arguments() {
    let e = Error::invalid_sql(String::from("two statements in one request"));
    assert_eq!(e.status_code(), StatusCode::InvalidArguments);
}

#[test]
fn find_region_is_invalid_arguments() {
    let e = Error::find_region(String::from("no region for key"));
    assert_eq!(e.status_code(), StatusCode::InvalidArguments);
}

#[test]
fn invalid_insert_request_is_invalid_arguments() {
    let e = Error::invalid_insert_request(String::from("column count mismatch"));
    assert_eq!(e.status_code(), StatusCode::InvalidArguments);
}

#[test]
fn find_partition_column_is_invalid_arguments() {
    let e = Error::find_partition_column(String::from("host"));
    assert_eq!(e.status_code(), StatusCode::InvalidArguments);
}

#[test]
fn region_keys_size_is_invalid_arguments() {
    let e = Error::region_keys_size(3, 1);
    assert_eq!(e.status_code(), StatusCode::InvalidArguments);
}

#[test]
fn column_datatype_is_fixed_internal() {
    // A foreign error that itself reports Internal.
    let e = Error::column_datatype(ColumnDataTypeError {
        code: StatusCode::Internal,
        message: String::from("unknown proto datatype"),
        backtrace: None,
    });
    assert_eq!(e.status_code(), StatusCode::Internal);
}

#[test]
fn column_datatype_internal_is_fixed_not_delegated() {
    // The mapping is the fixed table entry, not a pass-through: even a
    // foreign error reporting a distinguishable code yields Internal.
    let e = Error::column_datatype(ColumnDataTypeError {
        code: StatusCode::Unsupported,
        message: String::from("unknown proto datatype"),
        backtrace: None,
    });
    assert_eq!(e.status_code(), StatusCode::Internal);
}

#[test]
fn exec_opentsdb_put_is_internal() {
    let e = Error::exec_opentsdb_put(String::from("datanode rejected the batch"));
    assert_eq!(e.status_code(), StatusCode::Internal);
}

#[test]
fn illegal_frontend_state_is_unexpected() {
    let e = Error::illegal_frontend_state(String::from("unexpected empty result set"));
    assert_eq!(e.status_code(), StatusCode::Unexpected);
}

#[test]
fn incomplete_grpc_result_is_unexpected() {
    let e = Error::incomplete_grpc_result(String::from("missing column in response"));
    assert_eq!(e.status_code(), StatusCode::Unexpected);
}

#[test]
fn request_datanode_delegates() {
    let e = Error::request_datanode(client_error(StatusCode::StorageUnavailable));
    assert_eq!(e.status_code(), StatusCode::StorageUnavailable);
}

#[test]
fn runtime_resource_delegates() {
    let e = Error::runtime_resource(RuntimeError {
        code: StatusCode::RuntimeResourcesExhausted,
        message: String::from("could not spawn worker"),
        backtrace: None,
    });
    assert_eq!(e.status_code(), StatusCode::RuntimeResourcesExhausted);
}

#[test]
fn start_server_delegates() {
    let e = Error::start_server(ServerError {
        code: StatusCode::Internal,
        message: String::from("port already bound"),
        backtrace: None,
    });
    assert_eq!(e.status_code(), StatusCode::Internal);
}

#[test]
fn parse_sql_delegates() {
    let e = Error::parse_sql(SqlError {
        code: StatusCode::InvalidSyntax,
        message: String::from("unexpected token"),
        backtrace: None,
    });
    assert_eq!(e.status_code(), StatusCode::InvalidSyntax);
}

#[test]
fn convert_column_default_constraint_delegates() {
    let e = Error::convert_column_default_constraint(
        String::from("ts"),
        DataTypeError {
            code: StatusCode::Unsupported,
            message: String::from("unsupported default value"),
            backtrace: None,
        },
    );
    assert_eq!(e.status_code(), StatusCode::Unsupported);
}

#[test]
fn delegation_is_independent_of_local_context() {
    // The same foreign code comes through whatever the local context says.
    let a = Error::convert_column_default_constraint(
        String::from("a"),
        DataTypeError {
            code: StatusCode::Unknown,
            message: String::from("x"),
            backtrace: None,
        },
    );
    let b = Error::convert_column_default_constraint(
        String::from("completely different column"),
        DataTypeError {
            code: StatusCode::Unknown,
            message: String::from("another text"),
            backtrace: None,
        },
    );
    assert_eq!(a.status_code(), StatusCode::Unknown);
    assert_eq!(b.status_code(), StatusCode::Unknown);
}
