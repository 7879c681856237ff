use psqlpy::errors::RustPSQLDriverError;
use psqlpy::lifecycle::{
    connection_enter, process_message, ConnectionEnter, CursorClose, CursorStart, CursorState, ListenerMessage,
    ListenerNotification, ListenerState, TransactionExit, TransactionState,
};
use psqlpy::listener::{build_reconcile_query, ChannelCallbacks, Subscriptions};

fn strings(v: &[&str]) -> Vec<String> {
    v.iter().map(|s| s.to_string()).collect()
}

#[test]
fn callbacks_are_kept_per_channel_in_order() {
    let mut cb: ChannelCallbacks<u32> = ChannelCallbacks::new();
    assert!(cb.retrieve_channel_callbacks("a").is_none());
    cb.add_callback("a".to_string(), 1);
    cb.add_callback("b".to_string(), 2);
    cb.add_callback("a".to_string(), 3);
    assert_eq!(cb.retrieve_channel_callbacks("a"), Some(&vec![1, 3]));
    assert_eq!(cb.retrieve_channel_callbacks("b"), Some(&vec![2]));
    assert_eq!(cb.retrieve_all_channels(), strings(&["a", "b"]));
}

#[test]
fn clearing_channels() {
    let mut cb: ChannelCallbacks<u32> = ChannelCallbacks::new();
    cb.add_callback("a".to_string(), 1);
    cb.add_callback("b".to_string(), 2);
    cb.add_callback("c".to_string(), 3);
    cb.clear_channel_callbacks("b");
    assert!(cb.retrieve_channel_callbacks("b").is_none());
    assert_eq!(cb.retrieve_all_channels(), strings(&["a", "c"]));
    cb.clear_channel_callbacks("zzz");
    assert_eq!(cb.retrieve_all_channels(), strings(&["a", "c"]));
    cb.clear_all();
    assert!(cb.retrieve_all_channels().is_empty());
    assert!(cb.retrieve_channel_callbacks("a").is_none());
}

#[test]
fn reconcile_statements() {
    assert_eq!(
        build_reconcile_query(&strings(&["a", "b"]), &strings(&["b", "c"])),
        "UNLISTEN a;LISTEN c;"
    );
    assert_eq!(build_reconcile_query(&strings(&[]), &strings(&["x", "y"])), "LISTEN x;LISTEN y;");
    assert_eq!(build_reconcile_query(&strings(&["x"]), &strings(&[])), "UNLISTEN x;");
}

#[test]
fn reconcile_is_idempotent() {
    let d = strings(&["a", "b", "c"]);
    assert_eq!(build_reconcile_query(&d, &d), "");
}

#[test]
fn subscriptions_follow_the_wanted_channels() {
    let mut subs = Subscriptions::new();
    let desired = strings(&["n1", "n2"]);
    let plan = subs.plan_listen(&desired);
    assert_eq!(plan, Some("LISTEN n1;LISTEN n2;".to_string()));
    assert!(subs.finish_listen(&desired, Ok(())).is_ok());
    assert!(subs.is_listened);
    assert_eq!(subs.applied, desired);
    // Nothing to send while the subscriptions are known to match.
    assert_eq!(subs.plan_listen(&desired), None);
    // A channel cleared: only the UNLISTEN half is sent.
    subs.mark_dirty();
    let desired2 = strings(&["n2"]);
    assert_eq!(subs.plan_listen(&desired2), Some("UNLISTEN n1;".to_string()));
    assert!(subs.finish_listen(&desired2, Ok(())).is_ok());
    assert_eq!(subs.applied, desired2);
    // Dirty but unchanged: nothing to send.
    subs.mark_dirty();
    assert_eq!(subs.plan_listen(&desired2), None);
}

#[test]
fn failed_reconciliation_is_retried() {
    let mut subs = Subscriptions::new();
    let desired = strings(&["n1"]);
    match subs.finish_listen(&desired, Err("connection lost".to_string())) {
        Err(RustPSQLDriverError::RustDriverError(m)) => assert_eq!(m, "connection lost"),
        other => panic!("unexpected {:?}", other),
    }
    assert!(!subs.is_listened);
    assert!(subs.applied.is_empty());
    assert_eq!(subs.plan_listen(&desired), Some("LISTEN n1;".to_string()));
}

#[test]
fn listener_lifecycle() {
    let mut l = ListenerState::new();
    assert!(l.check_startup().is_ok());
    match l.check_connection() {
        Err(RustPSQLDriverError::ListenerStartError(m)) => assert_eq!(m, "Listener isn't started up"),
        other => panic!("unexpected {:?}", other),
    }
    match l.check_next() {
        Err(RustPSQLDriverError::ListenerStartError(m)) => {
            assert_eq!(m, "Listener doesn't have underlying client, please call startup")
        }
        other => panic!("unexpected {:?}", other),
    }
    match l.check_listen() {
        Err(RustPSQLDriverError::ListenerStartError(m)) => {
            assert_eq!(m, "Cannot start listening, underlying connection doesn't exist")
        }
        other => panic!("unexpected {:?}", other),
    }
    l.started_up();
    match l.check_startup() {
        Err(RustPSQLDriverError::ListenerStartError(m)) => assert_eq!(m, "Listener is already started"),
        other => panic!("unexpected {:?}", other),
    }
    assert!(l.check_connection().is_ok());
    assert!(l.check_next().is_ok());
    assert!(l.check_listen().is_ok());
    assert_eq!(l.exit(false).unwrap(), true);
    assert_eq!(l.exit(true).unwrap_err().to_message(), "Listener is closed");
    l.has_client = true;
    match l.check_next() {
        Err(RustPSQLDriverError::ListenerStartError(m)) => {
            assert_eq!(m, "Listener doesn't have underlying receiver, please call startup")
        }
        other => panic!("unexpected {:?}", other),
    }
    l.shut_down();
    assert!(!l.is_started && !l.has_client && !l.has_receiver);
}

#[test]
fn only_notifications_are_processed() {
    let n = ListenerNotification { process_id: 42, channel: "ch".to_string(), payload: "p".to_string() };
    let got = process_message(Some(ListenerMessage::Notification(n))).unwrap();
    assert_eq!(got.process_id, 42);
    assert_eq!(got.channel, "ch");
    assert_eq!(got.payload, "p");
    match process_message(None) {
        Err(RustPSQLDriverError::ListenerError(m)) => assert_eq!(m, "Wow"),
        other => panic!("unexpected {:?}", other),
    }
    assert!(matches!(process_message(Some(ListenerMessage::Other)), Err(RustPSQLDriverError::ListenerError(_))));
}

#[test]
fn transaction_handle_lifecycle() {
    let mut t = TransactionState::new(true);
    assert!(t.require_open().is_ok());
    assert!(!t.is_closed());
    assert_eq!(t.exit(true).unwrap(), TransactionExit::Commit);
    assert!(!t.is_closed());
    t.finished(&Ok(()));
    assert!(t.is_closed());
    assert!(matches!(t.require_open(), Err(RustPSQLDriverError::TransactionClosedError)));
    assert!(matches!(t.exit(true), Err(RustPSQLDriverError::TransactionClosedError)));
    let t2 = TransactionState::new(true);
    assert_eq!(t2.exit(false).unwrap(), TransactionExit::RollbackAndReraise);
    assert!(!t2.is_closed());
    let t4 = TransactionState::new(false);
    assert!(matches!(t4.exit(false), Err(RustPSQLDriverError::TransactionClosedError)));
}

#[test]
fn failed_commit_keeps_the_transaction_open() {
    let mut t = TransactionState::new(true);
    assert_eq!(t.exit(true).unwrap(), TransactionExit::Commit);
    t.finished(&Err(RustPSQLDriverError::TransactionCommitError("lost".to_string())));
    assert!(!t.is_closed());
    assert!(t.require_open().is_ok());
    assert_eq!(t.exit(false).unwrap(), TransactionExit::RollbackAndReraise);
    t.finished(&Err(RustPSQLDriverError::TransactionRollbackError("lost".to_string())));
    assert!(!t.is_closed());
    t.finished(&Ok(()));
    assert!(t.is_closed());
}

#[test]
fn connection_enter_decisions() {
    assert_eq!(connection_enter(true, false).unwrap(), ConnectionEnter::Ready);
    assert_eq!(connection_enter(false, true).unwrap(), ConnectionEnter::AcquireFromPool);
    assert!(matches!(connection_enter(false, false), Err(RustPSQLDriverError::ConnectionClosedError)));
}

#[test]
fn cursor_lifecycle() {
    let mut c = CursorState::new(true);
    assert_eq!(c.start().unwrap(), CursorStart::Declare);
    assert!(matches!(c.require_started(), Err(RustPSQLDriverError::CursorClosedError)));
    assert_eq!(c.close().unwrap(), CursorClose::Release);
    c.started("cur3".to_string());
    assert_eq!(c.start().unwrap(), CursorStart::AlreadyStarted);
    assert_eq!(c.require_started().unwrap(), "cur3");
    assert_eq!(c.close().unwrap(), CursorClose::CloseOnServer);
    c.closed();
    assert!(!c.open);
    assert!(matches!(c.start(), Err(RustPSQLDriverError::CursorClosedError)));
    let mut d = CursorState::new(false);
    d.started("x".to_string());
    assert!(matches!(d.close(), Err(RustPSQLDriverError::CursorClosedError)));
}

#[test]
fn cursor_fetch_errors_carry_the_message() {
    match CursorState::fetch_error("timeout") {
        RustPSQLDriverError::CursorFetchError(m) => assert_eq!(m, "Cannot fetch data from cursor, error - timeout"),
        other => panic!("unexpected {:?}", other),
    }
}

#[test]
fn dropped_and_new_channels_are_reconciled() {
    let q = build_reconcile_query(&strings(&["old", "kept"]), &strings(&["kept", "new"]));
    assert!(q.contains("UNLISTEN old;"));
    assert!(q.contains("LISTEN new;"));
    assert!(!q.contains("kept"));
}
