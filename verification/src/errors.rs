//! The driver's errors, the message each one carries, and the Python
//! exception class each one is raised as.

use vstd::prelude::*;
use crate::text::push_str;

verus! {

/// An error of the driver. Errors that come from other components (the
/// database engine, the pool, the Python runtime, ...) carry the text of
/// the underlying error.
#[derive(Clone, Debug)]
pub enum RustPSQLDriverError {
    BaseConnectionPoolError(String),
    ConnectionPoolBuildError(String),
    ConnectionPoolConfigurationError(String),
    ConnectionPoolExecuteError(String),
    BaseConnectionError(String),
    ConnectionExecuteError(String),
    ConnectionClosedError,
    BaseTransactionError(String),
    TransactionBeginError(String),
    TransactionCommitError(String),
    TransactionRollbackError(String),
    TransactionSavepointError(String),
    TransactionExecuteError(String),
    TransactionClosedError,
    BaseCursorError(String),
    CursorStartError(String),
    CursorCloseError(String),
    CursorFetchError(String),
    CursorClosedError,
    ListenerError(String),
    ListenerStartError(String),
    ListenerClosedError,
    ListenerCallbackError,
    RustToPyValueConversionError(String),
    PyToRustValueConversionError(String),
    RustPyError(String),
    RustDriverError(String),
    RustConnectionPoolError(String),
    RustDriverBuildError(String),
    RustUUIDConvertError(String),
    RustMacAddrConversionError(String),
    RustRuntimeJoinError(String),
    DecimalConversionError(String),
    SSLError(String),
}

/// The Python exception class an error is raised as.
#[derive(Clone, Copy, Debug, PartialEq, Eq, Structural)]
pub enum PythonExceptionKind {
    BaseConnectionPoolError,
    ConnectionPoolBuildError,
    ConnectionPoolConfigurationError,
    ConnectionPoolExecuteError,
    BaseConnectionError,
    ConnectionExecuteError,
    ConnectionClosedError,
    BaseTransactionError,
    TransactionBeginError,
    TransactionCommitError,
    TransactionRollbackError,
    TransactionSavepointError,
    TransactionExecuteError,
    TransactionClosedError,
    BaseCursorError,
    CursorStartError,
    CursorCloseError,
    CursorFetchError,
    CursorClosedError,
    BaseListenerError,
    ListenerStartError,
    ListenerClosedError,
    ListenerCallbackError,
    RustToPyValueMappingError,
    PyToRustValueMappingError,
    PythonException,
    DriverError,
    UUIDValueConvertError,
    MacAddrParseError,
    RuntimeJoinError,
    SSLError,
}

/// The message of an error.
pub open spec fn error_message(e: RustPSQLDriverError) -> Seq<char> {
    match e {
        RustPSQLDriverError::BaseConnectionPoolError(s) => "Connection pool error: "@ + s@ + "."@,
        RustPSQLDriverError::ConnectionPoolBuildError(s) => "Connection pool build error: "@ + s@ + "."@,
        RustPSQLDriverError::ConnectionPoolConfigurationError(s) => "Connection pool configuration error: "@ + s@ + "."@,
        RustPSQLDriverError::ConnectionPoolExecuteError(s) => "Connection pool execute error: "@ + s@ + "."@,
        RustPSQLDriverError::BaseConnectionError(s) => "Connection error: "@ + s@ + "."@,
        RustPSQLDriverError::ConnectionExecuteError(s) => "Connection execute error: "@ + s@ + "."@,
        RustPSQLDriverError::ConnectionClosedError => "Underlying connection is returned to the pool"@,
        RustPSQLDriverError::BaseTransactionError(s) => "Transaction error: "@ + s@,
        RustPSQLDriverError::TransactionBeginError(s) => "Transaction begin error: "@ + s@,
        RustPSQLDriverError::TransactionCommitError(s) => "Transaction commit error: "@ + s@,
        RustPSQLDriverError::TransactionRollbackError(s) => "Transaction rollback error: "@ + s@,
        RustPSQLDriverError::TransactionSavepointError(s) => "Transaction savepoint error: "@ + s@,
        RustPSQLDriverError::TransactionExecuteError(s) => "Transaction execute error: "@ + s@,
        RustPSQLDriverError::TransactionClosedError => "Underlying connection is returned to the pool"@,
        RustPSQLDriverError::BaseCursorError(s) => "Cursor error: "@ + s@,
        RustPSQLDriverError::CursorStartError(s) => "Cursor start error: "@ + s@,
        RustPSQLDriverError::CursorCloseError(s) => "Cursor close error: "@ + s@,
        RustPSQLDriverError::CursorFetchError(s) => "Cursor fetch error: "@ + s@,
        RustPSQLDriverError::CursorClosedError => "Underlying connection is returned to the pool"@,
        RustPSQLDriverError::ListenerError(s) => "Listener error: "@ + s@,
        RustPSQLDriverError::ListenerStartError(s) => "Listener start error: "@ + s@,
        RustPSQLDriverError::ListenerClosedError => "Listener is closed"@,
        RustPSQLDriverError::ListenerCallbackError => "Listener callback error"@,
        RustPSQLDriverError::RustToPyValueConversionError(s) => "Can't convert value from driver to python type: "@ + s@,
        RustPSQLDriverError::PyToRustValueConversionError(s) => "Can't convert value from python to rust type: "@ + s@,
        RustPSQLDriverError::RustPyError(s) => "Python exception: "@ + s@ + "."@,
        RustPSQLDriverError::RustDriverError(s) => "Database engine exception: "@ + s@ + "."@,
        RustPSQLDriverError::RustConnectionPoolError(s) => "Database engine pool exception: "@ + s@,
        RustPSQLDriverError::RustDriverBuildError(s) => "Database engine build failed: "@ + s@,
        RustPSQLDriverError::RustUUIDConvertError(s) => "Value convert has failed: "@ + s@,
        RustPSQLDriverError::RustMacAddrConversionError(_) => "Cannot convert provided string to MacAddr6"@,
        RustPSQLDriverError::RustRuntimeJoinError(s) => "Cannot execute future in Rust: "@ + s@,
        RustPSQLDriverError::DecimalConversionError(_) => "Cannot convert python Decimal into rust Decimal"@,
        RustPSQLDriverError::SSLError(s) => "Cannot create set SSL: "@ + s@,
    }
}

/// The Python exception class of an error.
pub open spec fn error_kind(e: RustPSQLDriverError) -> PythonExceptionKind {
    match e {
        RustPSQLDriverError::BaseConnectionPoolError(_) => PythonExceptionKind::BaseConnectionPoolError,
        RustPSQLDriverError::ConnectionPoolBuildError(_) => PythonExceptionKind::ConnectionPoolBuildError,
        RustPSQLDriverError::ConnectionPoolConfigurationError(_) => PythonExceptionKind::ConnectionPoolConfigurationError,
        RustPSQLDriverError::ConnectionPoolExecuteError(_) => PythonExceptionKind::ConnectionPoolExecuteError,
        RustPSQLDriverError::BaseConnectionError(_) => PythonExceptionKind::BaseConnectionError,
        RustPSQLDriverError::ConnectionExecuteError(_) => PythonExceptionKind::ConnectionExecuteError,
        RustPSQLDriverError::ConnectionClosedError => PythonExceptionKind::ConnectionClosedError,
        RustPSQLDriverError::BaseTransactionError(_) => PythonExceptionKind::BaseTransactionError,
        RustPSQLDriverError::TransactionBeginError(_) => PythonExceptionKind::TransactionBeginError,
        RustPSQLDriverError::TransactionCommitError(_) => PythonExceptionKind::TransactionCommitError,
        RustPSQLDriverError::TransactionRollbackError(_) => PythonExceptionKind::TransactionRollbackError,
        RustPSQLDriverError::TransactionSavepointError(_) => PythonExceptionKind::TransactionSavepointError,
        RustPSQLDriverError::TransactionExecuteError(_) => PythonExceptionKind::TransactionExecuteError,
        RustPSQLDriverError::TransactionClosedError => PythonExceptionKind::TransactionClosedError,
        RustPSQLDriverError::BaseCursorError(_) => PythonExceptionKind::BaseCursorError,
        RustPSQLDriverError::CursorStartError(_) => PythonExceptionKind::CursorStartError,
        RustPSQLDriverError::CursorCloseError(_) => PythonExceptionKind::CursorCloseError,
        RustPSQLDriverError::CursorFetchError(_) => PythonExceptionKind::CursorFetchError,
        RustPSQLDriverError::CursorClosedError => PythonExceptionKind::CursorClosedError,
        RustPSQLDriverError::ListenerError(_) => PythonExceptionKind::BaseListenerError,
        RustPSQLDriverError::ListenerStartError(_) => PythonExceptionKind::ListenerStartError,
        RustPSQLDriverError::ListenerClosedError => PythonExceptionKind::ListenerClosedError,
        RustPSQLDriverError::ListenerCallbackError => PythonExceptionKind::ListenerCallbackError,
        RustPSQLDriverError::RustToPyValueConversionError(_) => PythonExceptionKind::RustToPyValueMappingError,
        RustPSQLDriverError::PyToRustValueConversionError(_) => PythonExceptionKind::PyToRustValueMappingError,
        RustPSQLDriverError::RustPyError(_) => PythonExceptionKind::PythonException,
        RustPSQLDriverError::RustDriverError(_) => PythonExceptionKind::DriverError,
        RustPSQLDriverError::RustConnectionPoolError(_) => PythonExceptionKind::BaseConnectionPoolError,
        RustPSQLDriverError::RustDriverBuildError(_) => PythonExceptionKind::ConnectionPoolBuildError,
        RustPSQLDriverError::RustUUIDConvertError(_) => PythonExceptionKind::UUIDValueConvertError,
        RustPSQLDriverError::RustMacAddrConversionError(_) => PythonExceptionKind::MacAddrParseError,
        RustPSQLDriverError::RustRuntimeJoinError(_) => PythonExceptionKind::RuntimeJoinError,
        RustPSQLDriverError::DecimalConversionError(_) => PythonExceptionKind::PyToRustValueMappingError,
        RustPSQLDriverError::SSLError(_) => PythonExceptionKind::SSLError,
    }
}

impl RustPSQLDriverError {
    /// The message of the error.
    pub fn to_message(&self) -> (m: String)
        ensures
            m@ == error_message(*self),
    {
        let mut m = String::new();
        match self {
            RustPSQLDriverError::BaseConnectionPoolError(s) => {
                push_str(&mut m, "Connection pool error: ");
                push_str(&mut m, s.as_str());
                push_str(&mut m, ".");
            },
            RustPSQLDriverError::ConnectionPoolBuildError(s) => {
                push_str(&mut m, "Connection pool build error: ");
                push_str(&mut m, s.as_str());
                push_str(&mut m, ".");
            },
            RustPSQLDriverError::ConnectionPoolConfigurationError(s) => {
                push_str(&mut m, "Connection pool configuration error: ");
                push_str(&mut m, s.as_str());
                push_str(&mut m, ".");
            },
            RustPSQLDriverError::ConnectionPoolExecuteError(s) => {
                push_str(&mut m, "Connection pool execute error: ");
                push_str(&mut m, s.as_str());
                push_str(&mut m, ".");
            },
            RustPSQLDriverError::BaseConnectionError(s) => {
                push_str(&mut m, "Connection error: ");
                push_str(&mut m, s.as_str());
                push_str(&mut m, ".");
            },
            RustPSQLDriverError::ConnectionExecuteError(s) => {
                push_str(&mut m, "Connection execute error: ");
                push_str(&mut m, s.as_str());
                push_str(&mut m, ".");
            },
            RustPSQLDriverError::ConnectionClosedError => push_str(&mut m, "Underlying connection is returned to the pool"),
            RustPSQLDriverError::BaseTransactionError(s) => {
                push_str(&mut m, "Transaction error: ");
                push_str(&mut m, s.as_str());
            },
            RustPSQLDriverError::TransactionBeginError(s) => {
                push_str(&mut m, "Transaction begin error: ");
                push_str(&mut m, s.as_str());
            },
            RustPSQLDriverError::TransactionCommitError(s) => {
                push_str(&mut m, "Transaction commit error: ");
                push_str(&mut m, s.as_str());
            },
            RustPSQLDriverError::TransactionRollbackError(s) => {
                push_str(&mut m, "Transaction rollback error: ");
                push_str(&mut m, s.as_str());
            },
            RustPSQLDriverError::TransactionSavepointError(s) => {
                push_str(&mut m, "Transaction savepoint error: ");
                push_str(&mut m, s.as_str());
            },
            RustPSQLDriverError::TransactionExecuteError(s) => {
                push_str(&mut m, "Transaction execute error: ");
                push_str(&mut m, s.as_str());
            },
            RustPSQLDriverError::TransactionClosedError => push_str(&mut m, "Underlying connection is returned to the pool"),
            RustPSQLDriverError::BaseCursorError(s) => {
                push_str(&mut m, "Cursor error: ");
                push_str(&mut m, s.as_str());
            },
            RustPSQLDriverError::CursorStartError(s) => {
                push_str(&mut m, "Cursor start error: ");
                push_str(&mut m, s.as_str());
            },
            RustPSQLDriverError::CursorCloseError(s) => {
                push_str(&mut m, "Cursor close error: ");
                push_str(&mut m, s.as_str());
            },
            RustPSQLDriverError::CursorFetchError(s) => {
                push_str(&mut m, "Cursor fetch error: ");
                push_str(&mut m, s.as_str());
            },
            RustPSQLDriverError::CursorClosedError => push_str(&mut m, "Underlying connection is returned to the pool"),
            RustPSQLDriverError::ListenerError(s) => {
                push_str(&mut m, "Listener error: ");
                push_str(&mut m, s.as_str());
            },
            RustPSQLDriverError::ListenerStartError(s) => {
                push_str(&mut m, "Listener start error: ");
                push_str(&mut m, s.as_str());
            },
            RustPSQLDriverError::ListenerClosedError => push_str(&mut m, "Listener is closed"),
            RustPSQLDriverError::ListenerCallbackError => push_str(&mut m, "Listener callback error"),
            RustPSQLDriverError::RustToPyValueConversionError(s) => {
                push_str(&mut m, "Can't convert value from driver to python type: ");
                push_str(&mut m, s.as_str());
            },
            RustPSQLDriverError::PyToRustValueConversionError(s) => {
                push_str(&mut m, "Can't convert value from python to rust type: ");
                push_str(&mut m, s.as_str());
            },
            RustPSQLDriverError::RustPyError(s) => {
                push_str(&mut m, "Python exception: ");
                push_str(&mut m, s.as_str());
                push_str(&mut m, ".");
            },
            RustPSQLDriverError::RustDriverError(s) => {
                push_str(&mut m, "Database engine exception: ");
                push_str(&mut m, s.as_str());
                push_str(&mut m, ".");
            },
            RustPSQLDriverError::RustConnectionPoolError(s) => {
                push_str(&mut m, "Database engine pool exception: ");
                push_str(&mut m, s.as_str());
            },
            RustPSQLDriverError::RustDriverBuildError(s) => {
                push_str(&mut m, "Database engine build failed: ");
                push_str(&mut m, s.as_str());
            },
            RustPSQLDriverError::RustUUIDConvertError(s) => {
                push_str(&mut m, "Value convert has failed: ");
                push_str(&mut m, s.as_str());
            },
            RustPSQLDriverError::RustMacAddrConversionError(_) => push_str(&mut m, "Cannot convert provided string to MacAddr6"),
            RustPSQLDriverError::RustRuntimeJoinError(s) => {
                push_str(&mut m, "Cannot execute future in Rust: ");
                push_str(&mut m, s.as_str());
            },
            RustPSQLDriverError::DecimalConversionError(_) => push_str(&mut m, "Cannot convert python Decimal into rust Decimal"),
            RustPSQLDriverError::SSLError(s) => {
                push_str(&mut m, "Cannot create set SSL: ");
                push_str(&mut m, s.as_str());
            },
        }
        m
    }

    /// The Python exception class the error is raised as.
    pub fn exception_kind(&self) -> (k: PythonExceptionKind)
        ensures
            k == error_kind(*self),
    {
        match self {
            RustPSQLDriverError::BaseConnectionPoolError(_) => PythonExceptionKind::BaseConnectionPoolError,
            RustPSQLDriverError::ConnectionPoolBuildError(_) => PythonExceptionKind::ConnectionPoolBuildError,
            RustPSQLDriverError::ConnectionPoolConfigurationError(_) => PythonExceptionKind::ConnectionPoolConfigurationError,
            RustPSQLDriverError::ConnectionPoolExecuteError(_) => PythonExceptionKind::ConnectionPoolExecuteError,
            RustPSQLDriverError::BaseConnectionError(_) => PythonExceptionKind::BaseConnectionError,
            RustPSQLDriverError::ConnectionExecuteError(_) => PythonExceptionKind::ConnectionExecuteError,
            RustPSQLDriverError::ConnectionClosedError => PythonExceptionKind::ConnectionClosedError,
            RustPSQLDriverError::BaseTransactionError(_) => PythonExceptionKind::BaseTransactionError,
            RustPSQLDriverError::TransactionBeginError(_) => PythonExceptionKind::TransactionBeginError,
            RustPSQLDriverError::TransactionCommitError(_) => PythonExceptionKind::TransactionCommitError,
            RustPSQLDriverError::TransactionRollbackError(_) => PythonExceptionKind::TransactionRollbackError,
            RustPSQLDriverError::TransactionSavepointError(_) => PythonExceptionKind::TransactionSavepointError,
            RustPSQLDriverError::TransactionExecuteError(_) => PythonExceptionKind::TransactionExecuteError,
            RustPSQLDriverError::TransactionClosedError => PythonExceptionKind::TransactionClosedError,
            RustPSQLDriverError::BaseCursorError(_) => PythonExceptionKind::BaseCursorError,
            RustPSQLDriverError::CursorStartError(_) => PythonExceptionKind::CursorStartError,
            RustPSQLDriverError::CursorCloseError(_) => PythonExceptionKind::CursorCloseError,
            RustPSQLDriverError::CursorFetchError(_) => PythonExceptionKind::CursorFetchError,
            RustPSQLDriverError::CursorClosedError => PythonExceptionKind::CursorClosedError,
            RustPSQLDriverError::ListenerError(_) => PythonExceptionKind::BaseListenerError,
            RustPSQLDriverError::ListenerStartError(_) => PythonExceptionKind::ListenerStartError,
            RustPSQLDriverError::ListenerClosedError => PythonExceptionKind::ListenerClosedError,
            RustPSQLDriverError::ListenerCallbackError => PythonExceptionKind::ListenerCallbackError,
            RustPSQLDriverError::RustToPyValueConversionError(_) => PythonExceptionKind::RustToPyValueMappingError,
            RustPSQLDriverError::PyToRustValueConversionError(_) => PythonExceptionKind::PyToRustValueMappingError,
            RustPSQLDriverError::RustPyError(_) => PythonExceptionKind::PythonException,
            RustPSQLDriverError::RustDriverError(_) => PythonExceptionKind::DriverError,
            RustPSQLDriverError::RustConnectionPoolError(_) => PythonExceptionKind::BaseConnectionPoolError,
            RustPSQLDriverError::RustDriverBuildError(_) => PythonExceptionKind::ConnectionPoolBuildError,
            RustPSQLDriverError::RustUUIDConvertError(_) => PythonExceptionKind::UUIDValueConvertError,
            RustPSQLDriverError::RustMacAddrConversionError(_) => PythonExceptionKind::MacAddrParseError,
            RustPSQLDriverError::RustRuntimeJoinError(_) => PythonExceptionKind::RuntimeJoinError,
            RustPSQLDriverError::DecimalConversionError(_) => PythonExceptionKind::PyToRustValueMappingError,
            RustPSQLDriverError::SSLError(_) => PythonExceptionKind::SSLError,
        }
    }
}

/// Result of a driver operation.
pub type PSQLPyResult<T> = Result<T, RustPSQLDriverError>;

/// Result of a driver operation, under its older name.
pub type RustPSQLDriverPyResult<T> = Result<T, RustPSQLDriverError>;

} // verus!
