//! When the driver's handles (connections, transactions, cursors and
//! listeners) may be used, and what entering and leaving them as context
//! managers does.
//!
//! Each handle keeps its connection until it is closed; once closed, every
//! operation on it is refused with the handle's "closed" error.

use vstd::prelude::*;

use crate::errors::{PSQLPyResult, RustPSQLDriverError};
use crate::text::push_str;

verus! {

/// What leaving a transaction's `async with` block does.
#[derive(Clone, Copy, Debug, PartialEq, Eq, Structural)]
pub enum TransactionExit {
    /// The block ended normally: commit.
    Commit,
    /// The block raised: roll back, then raise the exception again.
    RollbackAndReraise,
}

/// A transaction handle.
#[derive(Clone, Copy, Debug, PartialEq, Eq, Structural)]
pub struct TransactionState {
    /// Whether the handle still holds its connection.
    pub open: bool,
}

impl TransactionState {
    pub fn new(has_connection: bool) -> (s: Self)
        ensures
            s.open == has_connection,
    {
        TransactionState { open: has_connection }
    }

    /// Refuses any operation once the transaction is closed.
    pub fn require_open(&self) -> (r: PSQLPyResult<()>)
        ensures
            r is Ok <==> self.open,
            r matches Err(e) ==> e is TransactionClosedError,
    {
        if self.open {
            Ok(())
        } else {
            Err(RustPSQLDriverError::TransactionClosedError)
        }
    }

    /// Whether the handle is closed.
    pub fn is_closed(&self) -> (b: bool)
        ensures
            b == !self.open,
    {
        !self.open
    }

    /// Records how a commit or a rollback went: one that succeeded ends the
    /// transaction and the handle gives its connection back; one that failed
    /// leaves the handle as it was, holding its connection, so that the
    /// statement can be tried again.
    pub fn finished(&mut self, outcome: &PSQLPyResult<()>)
        ensures
            outcome is Ok ==> !final(self).open,
            outcome is Err ==> *final(self) == *old(self),
    {
        if outcome.is_ok() {
            self.open = false;
        }
    }

    /// What leaving the `async with` block does: commit when the block
    /// ended normally, roll back when it raised; a closed transaction
    /// refuses it. The handle is left as it is: it gives its connection
    /// back only once the commit or rollback has succeeded (`finished`).
    pub fn exit(&self, exception_is_none: bool) -> (r: PSQLPyResult<TransactionExit>)
        ensures
            !self.open ==> (r matches Err(e) && e is TransactionClosedError),
            self.open ==> (r matches Ok(x) && x == (if exception_is_none {
                TransactionExit::Commit
            } else {
                TransactionExit::RollbackAndReraise
            })),
    {
        if !self.open {
            return Err(RustPSQLDriverError::TransactionClosedError);
        }
        if exception_is_none {
            Ok(TransactionExit::Commit)
        } else {
            Ok(TransactionExit::RollbackAndReraise)
        }
    }
}

/// What entering a connection's `async with` block does.
#[derive(Clone, Copy, Debug, PartialEq, Eq, Structural)]
pub enum ConnectionEnter {
    /// The connection already holds a client: nothing to do.
    Ready,
    /// Take a client from the pool.
    AcquireFromPool,
}

/// Entering a connection: a connection with a client is ready, one with a
/// pool takes a client from it, one with neither is closed.
pub fn connection_enter(has_client: bool, has_pool: bool) -> (r: PSQLPyResult<ConnectionEnter>)
    ensures
        has_client ==> r == Ok::<ConnectionEnter, RustPSQLDriverError>(ConnectionEnter::Ready),
        !has_client && has_pool ==> r == Ok::<ConnectionEnter, RustPSQLDriverError>(ConnectionEnter::AcquireFromPool),
        !has_client && !has_pool ==> (r matches Err(e) && e is ConnectionClosedError),
{
    if has_client {
        Ok(ConnectionEnter::Ready)
    } else if has_pool {
        Ok(ConnectionEnter::AcquireFromPool)
    } else {
        Err(RustPSQLDriverError::ConnectionClosedError)
    }
}

/// A server-side cursor handle.
#[derive(Clone, Debug)]
pub struct CursorState {
    /// Whether the handle still holds its connection.
    pub open: bool,
    /// The name of the declared cursor, once started.
    pub cursor_name: Option<String>,
}

/// What `start` must do.
#[derive(Clone, Copy, Debug, PartialEq, Eq, Structural)]
pub enum CursorStart {
    /// The cursor is already declared.
    AlreadyStarted,
    /// Declare the cursor.
    Declare,
}

/// What `close` must do.
#[derive(Clone, Copy, Debug, PartialEq, Eq, Structural)]
pub enum CursorClose {
    /// Close the declared cursor on the server, then release the handle.
    CloseOnServer,
    /// Nothing was declared: release the handle.
    Release,
}

impl CursorState {
    pub fn new(has_connection: bool) -> (s: Self)
        ensures
            s.open == has_connection,
            s.cursor_name is None,
    {
        CursorState { open: has_connection, cursor_name: None }
    }

    /// Starting: a started cursor is left alone, a closed one is refused.
    pub fn start(&self) -> (r: PSQLPyResult<CursorStart>)
        ensures
            self.cursor_name is Some ==> r == Ok::<CursorStart, RustPSQLDriverError>(CursorStart::AlreadyStarted),
            self.cursor_name is None && self.open ==> r == Ok::<CursorStart, RustPSQLDriverError>(CursorStart::Declare),
            self.cursor_name is None && !self.open ==> (r matches Err(e) && e is CursorClosedError),
    {
        if self.cursor_name.is_some() {
            Ok(CursorStart::AlreadyStarted)
        } else if self.open {
            Ok(CursorStart::Declare)
        } else {
            Err(RustPSQLDriverError::CursorClosedError)
        }
    }

    /// Records the name of the cursor just declared.
    pub fn started(&mut self, cursor_name: String)
        ensures
            final(self).cursor_name == Some(cursor_name),
            final(self).open == old(self).open,
    {
        self.cursor_name = Some(cursor_name);
    }

    /// Fetching needs a declared cursor; it gives the cursor's name.
    pub fn require_started(&self) -> (r: PSQLPyResult<&String>)
        ensures
            match self.cursor_name {
                Some(n) => r matches Ok(m) && *m == n,
                None => r matches Err(e) && e is CursorClosedError,
            },
    {
        match &self.cursor_name {
            Some(name) => Ok(name),
            None => Err(RustPSQLDriverError::CursorClosedError),
        }
    }

    /// Closing: a declared cursor is closed on the server first, which needs
    /// the connection.
    pub fn close(&self) -> (r: PSQLPyResult<CursorClose>)
        ensures
            self.cursor_name is Some && self.open ==> r == Ok::<CursorClose, RustPSQLDriverError>(CursorClose::CloseOnServer),
            self.cursor_name is Some && !self.open ==> (r matches Err(e) && e is CursorClosedError),
            self.cursor_name is None ==> r == Ok::<CursorClose, RustPSQLDriverError>(CursorClose::Release),
    {
        match &self.cursor_name {
            Some(_) => {
                if self.open {
                    Ok(CursorClose::CloseOnServer)
                } else {
                    Err(RustPSQLDriverError::CursorClosedError)
                }
            },
            None => Ok(CursorClose::Release),
        }
    }

    /// A failed fetch from the cursor, reported as a cursor-fetch error that
    /// carries the server's message.
    pub fn fetch_error(message: &str) -> (e: RustPSQLDriverError)
        ensures
            e matches RustPSQLDriverError::CursorFetchError(m)
                && m@ == "Cannot fetch data from cursor, error - "@ + message@,
    {
        let mut m = String::new();
        push_str(&mut m, "Cannot fetch data from cursor, error - ");
        push_str(&mut m, message);
        RustPSQLDriverError::CursorFetchError(m)
    }

    /// After closing, the cursor has no name and no connection.
    pub fn closed(&mut self)
        ensures
            !final(self).open,
            final(self).cursor_name is None,
    {
        self.cursor_name = None;
        self.open = false;
    }
}

/// A listener's lifecycle.
#[derive(Clone, Copy, Debug, PartialEq, Eq, Structural)]
pub struct ListenerState {
    pub is_started: bool,
    pub has_client: bool,
    pub has_receiver: bool,
}

fn start_error(message: &str) -> (e: RustPSQLDriverError)
    ensures
        e matches RustPSQLDriverError::ListenerStartError(m) && m@ == message@,
{
    RustPSQLDriverError::ListenerStartError(message.to_owned())
}

impl ListenerState {
    pub fn new() -> (s: Self)
        ensures
            !s.is_started && !s.has_client && !s.has_receiver,
    {
        ListenerState { is_started: false, has_client: false, has_receiver: false }
    }

    /// Starting up twice is refused.
    pub fn check_startup(&self) -> (r: PSQLPyResult<()>)
        ensures
            r is Ok <==> !self.is_started,
            r matches Err(e) ==> (e matches RustPSQLDriverError::ListenerStartError(m)
                && m@ == "Listener is already started"@),
    {
        if self.is_started {
            Err(start_error("Listener is already started"))
        } else {
            Ok(())
        }
    }

    /// A started listener holds a client and a receiver.
    pub fn started_up(&mut self)
        ensures
            final(self).is_started && final(self).has_client && final(self).has_receiver,
    {
        self.is_started = true;
        self.has_client = true;
        self.has_receiver = true;
    }

    /// Shutting down drops the client and the receiver.
    pub fn shut_down(&mut self)
        ensures
            !final(self).is_started && !final(self).has_client && !final(self).has_receiver,
    {
        self.is_started = false;
        self.has_client = false;
        self.has_receiver = false;
    }

    /// The listener's connection is available only once it is started.
    pub fn check_connection(&self) -> (r: PSQLPyResult<()>)
        ensures
            r is Ok <==> self.is_started,
            r matches Err(e) ==> (e matches RustPSQLDriverError::ListenerStartError(m)
                && m@ == "Listener isn't started up"@),
    {
        if !self.is_started {
            Err(start_error("Listener isn't started up"))
        } else {
            Ok(())
        }
    }

    /// Waiting for the next notification needs a client and a receiver.
    pub fn check_next(&self) -> (r: PSQLPyResult<()>)
        ensures
            r is Ok <==> (self.has_client && self.has_receiver),
            !self.has_client ==> (r matches Err(e) && e matches RustPSQLDriverError::ListenerStartError(m)
                && m@ == "Listener doesn't have underlying client, please call startup"@),
            self.has_client && !self.has_receiver ==> (r matches Err(e)
                && e matches RustPSQLDriverError::ListenerStartError(m)
                && m@ == "Listener doesn't have underlying receiver, please call startup"@),
    {
        if !self.has_client {
            Err(start_error("Listener doesn't have underlying client, please call startup"))
        } else if !self.has_receiver {
            Err(start_error("Listener doesn't have underlying receiver, please call startup"))
        } else {
            Ok(())
        }
    }

    /// Listening in the background needs a client and a receiver.
    pub fn check_listen(&self) -> (r: PSQLPyResult<()>)
        ensures
            r is Ok <==> (self.has_client && self.has_receiver),
            r matches Err(e) ==> (e matches RustPSQLDriverError::ListenerStartError(m)
                && m@ == "Cannot start listening, underlying connection doesn't exist"@),
    {
        if !self.has_client || !self.has_receiver {
            Err(start_error("Cannot start listening, underlying connection doesn't exist"))
        } else {
            Ok(())
        }
    }

    /// Leaving the `async with` block drops the client and the receiver; a
    /// listener without a client is refused as closed. `Ok(true)` asks for
    /// the block's exception to be raised again.
    pub fn exit(&mut self, exception_is_none: bool) -> (r: PSQLPyResult<bool>)
        ensures
            old(self).has_client ==> (r == Ok::<bool, RustPSQLDriverError>(!exception_is_none)
                && !final(self).has_client && !final(self).has_receiver
                && final(self).is_started == old(self).is_started),
            !old(self).has_client ==> (r matches Err(e) && e is ListenerClosedError && *final(self) == *old(self)),
    {
        if self.has_client {
            self.has_client = false;
            self.has_receiver = false;
            Ok(!exception_is_none)
        } else {
            Err(RustPSQLDriverError::ListenerClosedError)
        }
    }
}

/// A notification from the server.
#[derive(Clone, Debug)]
pub struct ListenerNotification {
    pub process_id: i32,
    pub channel: String,
    pub payload: String,
}

/// A message from the listener's connection: a notification, or a message
/// of another kind.
#[derive(Clone, Debug)]
pub enum ListenerMessage {
    Notification(ListenerNotification),
    Other,
}

/// Only a notification is what the listener waits for; the end of the
/// message stream or any other message is a listener error.
pub fn process_message(message: Option<ListenerMessage>) -> (r: PSQLPyResult<ListenerNotification>)
    ensures
        match message {
            Some(ListenerMessage::Notification(n)) => r matches Ok(m) && m == n,
            _ => r matches Err(RustPSQLDriverError::ListenerError(m)) && m@ == "Wow"@,
        },
{
    match message {
        Some(ListenerMessage::Notification(n)) => Ok(n),
        _ => Err(RustPSQLDriverError::ListenerError("Wow".to_owned())),
    }
}

} // verus!
