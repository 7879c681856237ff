use psqlpy::errors::{PSQLPyResult, PythonExceptionKind as K, RustPSQLDriverError as E, RustPSQLDriverPyResult};

fn s(x: &str) -> String {
    x.to_string()
}

#[test]
fn messages_of_errors() {
    let cases: Vec<(E, &str)> = vec![
        (E::BaseConnectionPoolError(s("x")), "Connection pool error: x."),
        (E::ConnectionPoolBuildError(s("x")), "Connection pool build error: x."),
        (E::ConnectionPoolConfigurationError(s("x")), "Connection pool configuration error: x."),
        (E::ConnectionPoolExecuteError(s("x")), "Connection pool execute error: x."),
        (E::BaseConnectionError(s("x")), "Connection error: x."),
        (E::ConnectionExecuteError(s("x")), "Connection execute error: x."),
        (E::ConnectionClosedError, "Underlying connection is returned to the pool"),
        (E::BaseTransactionError(s("x")), "Transaction error: x"),
        (E::TransactionBeginError(s("x")), "Transaction begin error: x"),
        (E::TransactionCommitError(s("x")), "Transaction commit error: x"),
        (E::TransactionRollbackError(s("x")), "Transaction rollback error: x"),
        (E::TransactionSavepointError(s("x")), "Transaction savepoint error: x"),
        (E::TransactionExecuteError(s("x")), "Transaction execute error: x"),
        (E::TransactionClosedError, "Underlying connection is returned to the pool"),
        (E::BaseCursorError(s("x")), "Cursor error: x"),
        (E::CursorStartError(s("x")), "Cursor start error: x"),
        (E::CursorCloseError(s("x")), "Cursor close error: x"),
        (E::CursorFetchError(s("x")), "Cursor fetch error: x"),
        (E::CursorClosedError, "Underlying connection is returned to the pool"),
        (E::RustToPyValueConversionError(s("x")), "Can't convert value from driver to python type: x"),
        (E::PyToRustValueConversionError(s("x")), "Can't convert value from python to rust type: x"),
        (E::RustPyError(s("x")), "Python exception: x."),
        (E::RustDriverError(s("x")), "Database engine exception: x."),
        (E::RustConnectionPoolError(s("x")), "Database engine pool exception: x"),
        (E::RustDriverBuildError(s("x")), "Database engine build failed: x"),
        (E::RustUUIDConvertError(s("x")), "Value convert has failed: x"),
        (E::RustMacAddrConversionError(s("x")), "Cannot convert provided string to MacAddr6"),
        (E::RustRuntimeJoinError(s("x")), "Cannot execute future in Rust: x"),
        (E::DecimalConversionError(s("x")), "Cannot convert python Decimal into rust Decimal"),
        (E::SSLError(s("x")), "Cannot create set SSL: x"),
    ];
    for (e, m) in cases {
        assert_eq!(e.to_message(), m);
    }
}

#[test]
fn exception_classes_of_errors() {
    assert_eq!(E::RustDriverError(s("x")).exception_kind(), K::DriverError);
    assert_eq!(E::RustPyError(s("x")).exception_kind(), K::PythonException);
    assert_eq!(E::RustConnectionPoolError(s("x")).exception_kind(), K::BaseConnectionPoolError);
    assert_eq!(E::RustDriverBuildError(s("x")).exception_kind(), K::ConnectionPoolBuildError);
    assert_eq!(E::DecimalConversionError(s("x")).exception_kind(), K::PyToRustValueMappingError);
    assert_eq!(E::PyToRustValueConversionError(s("x")).exception_kind(), K::PyToRustValueMappingError);
    assert_eq!(E::RustToPyValueConversionError(s("x")).exception_kind(), K::RustToPyValueMappingError);
    assert_eq!(E::RustMacAddrConversionError(s("x")).exception_kind(), K::MacAddrParseError);
    assert_eq!(E::RustUUIDConvertError(s("x")).exception_kind(), K::UUIDValueConvertError);
    assert_eq!(E::RustRuntimeJoinError(s("x")).exception_kind(), K::RuntimeJoinError);
    assert_eq!(E::ConnectionClosedError.exception_kind(), K::ConnectionClosedError);
    assert_eq!(E::TransactionClosedError.exception_kind(), K::TransactionClosedError);
    assert_eq!(E::CursorClosedError.exception_kind(), K::CursorClosedError);
    assert_eq!(E::TransactionSavepointError(s("x")).exception_kind(), K::TransactionSavepointError);
    assert_eq!(E::CursorFetchError(s("x")).exception_kind(), K::CursorFetchError);
    assert_eq!(E::SSLError(s("x")).exception_kind(), K::SSLError);
    assert_eq!(E::ListenerStartError(s("x")).exception_kind(), K::ListenerStartError);
    assert_eq!(E::ListenerClosedError.exception_kind(), K::ListenerClosedError);
    assert_eq!(E::ListenerCallbackError.exception_kind(), K::ListenerCallbackError);
    assert_eq!(E::ListenerError(s("x")).exception_kind(), K::BaseListenerError);
}

#[test]
fn result_aliases_agree() {
    let a: PSQLPyResult<u8> = Ok(1);
    let b: RustPSQLDriverPyResult<u8> = a;
    assert_eq!(b.unwrap(), 1);
}
