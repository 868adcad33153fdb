//! Context fields read back exactly as they were supplied, and the capture
//! site travels with the value.

use std::backtrace::Backtrace;

use frontend_error::error::Error;
use frontend_error::foreign::{
    AddrParseError, ClientError, ColumnDataTypeError, DataTypeError, RuntimeError, ServerError,
    SqlError,
};
use frontend_error::status::StatusCode;

#[test]
fn connect_datanode_round_trip() {
    let e = Error::connect_datanode(
        String::from("10.0.0.1:3001"),
        ClientError {
            code: StatusCode::StorageUnavailable,
            message: String::from("connection refused"),
            backtrace: None,
        },
    );
    match e {
        Error::ConnectDatanode { addr, source, .. } => {
            assert_eq!(addr, "10.0.0.1:3001");
            assert_eq!(source.code, StatusCode::StorageUnavailable);
            assert_eq!(source.message, "connection refused");
        }
        _ => panic!("wrong variant"),
    }
}

#[test]
fn convert_column_default_constraint_round_trip() {
    let e = Error::convert_column_default_constraint(
        String::from("ts"),
        DataTypeError {
            code: StatusCode::Unsupported,
            message: String::from("unsupported default value"),
            backtrace: None,
        },
    );
    match e {
        Error::ConvertColumnDefaultConstraint { column_name, source, .. } => {
            assert_eq!(column_name, "ts");
            assert_eq!(source.code, StatusCode::Unsupported);
            assert_eq!(source.message, "unsupported default value");
        }
        _ => panic!("wrong variant"),
    }
}

#[test]
fn invalid_sql_round_trip() {
    let e = Error::invalid_sql(String::from("two statements in one request"));
    match e {
        Error::InvalidSql { err_msg, .. } => {
            assert_eq!(err_msg, "two statements in one request");
        }
        _ => panic!("wrong variant"),
    }
}

#[test]
fn region_keys_size_round_trip() {
    let e = Error::region_keys_size(3, 1);
    match e {
        Error::RegionKeysSize { expect, actual, .. } => {
            assert_eq!(expect, 3);
            assert_eq!(actual, 1);
        }
        _ => panic!("wrong variant"),
    }
}

#[test]
fn find_partition_column_round_trip() {
    let e = Error::find_partition_column(String::from("ts"));
    match e {
        Error::FindPartitionColumn { column_name, .. } => {
            assert_eq!(column_name, "ts");
        }
        _ => panic!("wrong variant"),
    }
}

#[test]
fn leaf_variant_stamps_a_capture_site() {
    let e = Error::illegal_frontend_state(String::from("unexpected empty result set"));
    assert!(e.backtrace_opt().is_some());
}

#[test]
fn every_variant_yields_a_capture_site() {
    let client = || ClientError {
        code: StatusCode::Unknown,
        message: String::from("x"),
        backtrace: None,
    };
    let errors = vec![
        Error::connect_datanode(String::from("10.0.0.1:3001"), client()),
        Error::request_datanode(client()),
        Error::runtime_resource(RuntimeError {
            code: StatusCode::RuntimeResourcesExhausted,
            message: String::from("x"),
            backtrace: None,
        }),
        Error::start_server(ServerError {
            code: StatusCode::Internal,
            message: String::from("x"),
            backtrace: None,
        }),
        Error::parse_addr(
            String::from("999.999.999.999:1"),
            AddrParseError { message: String::from("x") },
        ),
        Error::parse_sql(SqlError {
            code: StatusCode::InvalidSyntax,
            message: String::from("x"),
            backtrace: None,
        }),
        Error::column_datatype(ColumnDataTypeError {
            code: StatusCode::Internal,
            message: String::from("x"),
            backtrace: None,
        }),
        Error::convert_column_default_constraint(
            String::from("ts"),
            DataTypeError {
                code: StatusCode::Unsupported,
                message: String::from("x"),
                backtrace: None,
            },
        ),
        Error::invalid_sql(String::from("x")),
        Error::illegal_frontend_state(String::from("x")),
        Error::incomplete_grpc_result(String::from("x")),
        Error::exec_opentsdb_put(String::from("x")),
        Error::find_partition_column(String::from("ts")),
        Error::find_region(String::from("x")),
        Error::invalid_insert_request(String::from("x")),
        Error::region_keys_size(3, 1),
    ];
    for e in &errors {
        assert!(e.backtrace_opt().is_some());
    }
}

#[test]
fn parse_addr_stamps_a_capture_site() {
    // The foreign address-parse error records no capture site of its own,
    // so the one stamped at construction is yielded.
    let e = Error::parse_addr(
        String::from("999.999.999.999:1"),
        AddrParseError { message: String::from("invalid socket address syntax") },
    );
    assert!(e.backtrace_opt().is_some());
}

#[test]
fn wrapping_variant_yields_a_capture_site_either_way() {
    // With a foreign capture site recorded, that one is yielded; without
    // one, the site stamped at construction is — never none.
    let with = Error::request_datanode(ClientError {
        code: StatusCode::Unknown,
        message: String::from("stream reset by peer"),
        backtrace: Some(Backtrace::capture()),
    });
    assert!(with.backtrace_opt().is_some());

    let without = Error::request_datanode(ClientError {
        code: StatusCode::Unknown,
        message: String::from("stream reset by peer"),
        backtrace: None,
    });
    assert!(without.backtrace_opt().is_some());
}
