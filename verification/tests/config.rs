use psqlpy::config::{build_connection_config, config_from_params, ConnectionConfig, ConnectionParams, DurationParts};
use psqlpy::connection_pool::{
    after_primary_attempt, build_psqlpy_manager, build_tls, connect, is_ssl_required_rejection, str_eq, ConnectionPoolBuilder,
    ConnectionPoolStatus, CreateStep, DbErrorInfo, ManagerPlan, TlsChoice,
};
use psqlpy::errors::{PSQLPyResult, RustPSQLDriverError};
use psqlpy::options::{ConnRecyclingMethod, LoadBalanceHosts, SslMode, TargetSessionAttrs};

fn params() -> ConnectionParams {
    ConnectionParams {
        dsn: None,
        username: None,
        password: None,
        host: None,
        hosts: None,
        port: None,
        ports: None,
        db_name: None,
        target_session_attrs: None,
        options: None,
        application_name: None,
        connect_timeout_sec: None,
        connect_timeout_nanosec: None,
        tcp_user_timeout_sec: None,
        tcp_user_timeout_nanosec: None,
        keepalives: None,
        keepalives_idle_sec: None,
        keepalives_idle_nanosec: None,
        keepalives_interval_sec: None,
        keepalives_interval_nanosec: None,
        keepalives_retries: None,
        load_balance_hosts: None,
        ssl_mode: None,
    }
}

fn build(p: ConnectionParams) -> PSQLPyResult<ConnectionConfig> {
    build_connection_config(
        p.dsn,
        p.username,
        p.password,
        p.host,
        p.hosts,
        p.port,
        p.ports,
        p.db_name,
        p.target_session_attrs,
        p.options,
        p.application_name,
        p.connect_timeout_sec,
        p.connect_timeout_nanosec,
        p.tcp_user_timeout_sec,
        p.tcp_user_timeout_nanosec,
        p.keepalives,
        p.keepalives_idle_sec,
        p.keepalives_idle_nanosec,
        p.keepalives_interval_sec,
        p.keepalives_interval_nanosec,
        p.keepalives_retries,
        p.load_balance_hosts,
        p.ssl_mode,
    )
}

fn config_error(r: PSQLPyResult<ConnectionConfig>) -> String {
    match r {
        Err(RustPSQLDriverError::ConnectionPoolConfigurationError(m)) => m,
        other => panic!("expected a configuration error, got {:?}", other.map(|_| ())),
    }
}

#[test]
fn separate_settings_are_kept_in_order() {
    let mut p = params();
    p.username = Some("postgres".into());
    p.password = Some("secret".into());
    p.hosts = Some(vec!["h1".into(), "h2".into()]);
    p.host = Some("h3".into());
    p.ports = Some(vec![5432, 5433]);
    p.port = Some(5434);
    p.db_name = Some("db".into());
    p.target_session_attrs = Some(TargetSessionAttrs::ReadWrite);
    p.application_name = Some("app".into());
    p.connect_timeout_sec = Some(5);
    p.connect_timeout_nanosec = Some(500);
    p.tcp_user_timeout_sec = Some(7);
    p.load_balance_hosts = Some(LoadBalanceHosts::Random);
    p.ssl_mode = Some(SslMode::Prefer);
    let c = build(p).unwrap();
    assert_eq!(c.dsn, None);
    assert_eq!(c.user.as_deref(), Some("postgres"));
    assert_eq!(c.password.as_deref(), Some("secret"));
    assert_eq!(c.hosts, vec!["h1".to_string(), "h2".to_string(), "h3".to_string()]);
    assert_eq!(c.ports, vec![5432, 5433, 5434]);
    assert_eq!(c.dbname.as_deref(), Some("db"));
    assert_eq!(c.target_session_attrs, Some(TargetSessionAttrs::ReadWrite));
    assert_eq!(c.application_name.as_deref(), Some("app"));
    assert_eq!(c.connect_timeout, Some(DurationParts { secs: 5, nanos: 500 }));
    assert_eq!(c.tcp_user_timeout, Some(DurationParts { secs: 7, nanos: 0 }));
    assert_eq!(c.load_balance_hosts, Some(LoadBalanceHosts::Random));
    assert_eq!(c.ssl_mode, Some(SslMode::Prefer));
    assert_eq!(c.keepalives, None);
}

#[test]
fn keepalive_settings_need_keepalives() {
    let mut p = params();
    p.keepalives_idle_sec = Some(10);
    p.keepalives_retries = Some(3);
    let c = build(p.clone()).unwrap();
    assert_eq!(c.keepalives, None);
    assert_eq!(c.keepalives_idle, None);
    assert_eq!(c.keepalives_retries, None);
    p.keepalives = Some(true);
    p.keepalives_interval_sec = Some(2);
    p.keepalives_interval_nanosec = Some(9);
    let c = build(p).unwrap();
    assert_eq!(c.keepalives, Some(true));
    assert_eq!(c.keepalives_idle, Some(DurationParts { secs: 10, nanos: 0 }));
    assert_eq!(c.keepalives_interval, Some(DurationParts { secs: 2, nanos: 9 }));
    assert_eq!(c.keepalives_retries, Some(3));
}

#[test]
fn keepalives_false_switches_keepalive_off() {
    let mut p = params();
    p.keepalives = Some(false);
    p.keepalives_idle_sec = Some(10);
    p.keepalives_interval_sec = Some(2);
    p.keepalives_retries = Some(3);
    let c = build(p.clone()).unwrap();
    assert_eq!(c.keepalives, Some(false));
    assert_eq!(c.keepalives_idle, None);
    assert_eq!(c.keepalives_interval, None);
    assert_eq!(c.keepalives_retries, None);
    p.dsn = Some("postgres://u@localhost:5432/db".to_string());
    let c = build(p).unwrap();
    assert_eq!(c.keepalives, Some(false));
}

#[test]
fn nanoseconds_need_seconds() {
    let mut p = params();
    p.tcp_user_timeout_nanosec = Some(1);
    p.connect_timeout_nanosec = Some(1);
    assert_eq!(config_error(build(p)), "tcp_user_timeout_nanosec must be used with tcp_user_timeout_sec param.");
    let mut p = params();
    p.connect_timeout_nanosec = Some(1);
    assert_eq!(config_error(build(p)), "connect_timeout_nanosec must be used with connect_timeout_sec param.");
    let mut p = params();
    p.keepalives_idle_nanosec = Some(1);
    assert_eq!(config_error(build(p)), "keepalives_idle_nanosec must be used with keepalives_idle_sec param.");
    let mut p = params();
    p.keepalives_interval_nanosec = Some(1);
    assert_eq!(
        config_error(build(p)),
        "keepalives_interval_nanosec must be used with keepalives_interval_sec param."
    );
}

#[test]
fn dsn_takes_the_place_of_separate_settings() {
    let mut p = params();
    p.dsn = Some("postgres://user:pw@localhost:5432/db".into());
    p.username = Some("ignored".into());
    p.host = Some("ignored".into());
    p.options = Some("-c geqo=off".into());
    let c = build(p).unwrap();
    assert_eq!(c.dsn.as_deref(), Some("postgres://user:pw@localhost:5432/db"));
    assert_eq!(c.user, None);
    assert!(c.hosts.is_empty());
    assert_eq!(c.options.as_deref(), Some("-c geqo=off"));
}

#[test]
fn invalid_dsn_is_refused() {
    let mut p = params();
    p.dsn = Some("postgres://user@host:notaport/db".into());
    match build(p) {
        Err(RustPSQLDriverError::ConnectionPoolBuildError(m)) => {
            assert!(m.starts_with("Cannot parse configuration from dsn string, error - "));
            assert!(m.len() > "Cannot parse configuration from dsn string, error - ".len());
        }
        other => panic!("expected a build error, got {:?}", other.map(|_| ())),
    }
}

#[test]
fn config_from_params_uses_the_parser_outcome() {
    let mut p = params();
    p.dsn = Some("anything".into());
    match config_from_params(&p, Some("bad".into())) {
        Err(RustPSQLDriverError::ConnectionPoolBuildError(m)) => {
            assert_eq!(m, "Cannot parse configuration from dsn string, error - bad")
        }
        other => panic!("unexpected {:?}", other.map(|_| ())),
    }
    let c = config_from_params(&p, None).unwrap();
    assert_eq!(c.dsn.as_deref(), Some("anything"));
}

#[test]
fn pool_size_must_exceed_one() {
    let r = connect(
        None, None, None, None, None, None, None, None, None, None, None, None, None, None, None, None, None,
        None, None, None, None, None, None, None, Some(1), None,
    );
    match r {
        Err(RustPSQLDriverError::ConnectionPoolConfigurationError(m)) => {
            assert_eq!(m, "Maximum database pool size must be more than 1")
        }
        other => panic!("unexpected {:?}", other.map(|_| ())),
    }
}

#[test]
fn pool_plan_defaults() {
    let plan = connect(
        None, Some("u".into()), None, Some("localhost".into()), None, Some(5432), None, None, None, None, None,
        None, None, None, None, None, None, None, None, None, None, None, Some(SslMode::Require), None, Some(4),
        None,
    )
    .unwrap();
    assert_eq!(plan.recycling_method, ConnRecyclingMethod::Fast);
    assert!(matches!(plan.tls, TlsChoice::NoVerify));
    assert_eq!(plan.max_db_pool_size, Some(4));
    assert_eq!(plan.config.hosts, vec!["localhost".to_string()]);
    assert_eq!(plan.config.ports, vec![5432]);
    let plan = connect(
        None, None, None, None, None, None, None, None, None, None, None, None, None, None, None, None, None, None,
        None, None, None, None, None, Some("/ca.pem".into()), None, Some(ConnRecyclingMethod::Clean),
    )
    .unwrap();
    assert_eq!(plan.recycling_method, ConnRecyclingMethod::Clean);
    assert!(matches!(plan.tls, TlsChoice::CaFile(ref f) if f == "/ca.pem"));
}

#[test]
fn tls_and_manager_choices() {
    assert!(matches!(build_tls(&None, &None), TlsChoice::NoTls));
    assert!(matches!(build_tls(&None, &Some(SslMode::Disable)), TlsChoice::NoTls));
    assert!(matches!(build_tls(&None, &Some(SslMode::Require)), TlsChoice::NoVerify));
    assert!(matches!(build_tls(&Some("f".into()), &Some(SslMode::Require)), TlsChoice::CaFile(_)));
    assert!(matches!(
        build_psqlpy_manager(TlsChoice::NoVerify, Some(SslMode::Allow)),
        ManagerPlan::AllowPair(TlsChoice::NoVerify)
    ));
    assert!(matches!(
        build_psqlpy_manager(TlsChoice::NoTls, Some(SslMode::Allow)),
        ManagerPlan::Single(TlsChoice::NoTls)
    ));
    assert!(matches!(
        build_psqlpy_manager(TlsChoice::NoVerify, Some(SslMode::Require)),
        ManagerPlan::Single(TlsChoice::NoVerify)
    ));
}

#[test]
fn ssl_rejection_is_found_in_the_chain() {
    let rejection = DbErrorInfo {
        code: "28000".into(),
        message: "pg_hba.conf rejects connection for host \"1.2.3.4\", user \"u\", database \"d\", no encryption"
            .into(),
    };
    let other = DbErrorInfo { code: "28P01".into(), message: "password authentication failed".into() };
    assert!(is_ssl_required_rejection(&vec![None, Some(rejection.clone())]));
    assert!(!is_ssl_required_rejection(&vec![Some(other.clone()), None]));
    assert!(!is_ssl_required_rejection(&vec![]));
    let wrong_code = DbErrorInfo { code: "28P01".into(), message: "no encryption".into() };
    assert!(!is_ssl_required_rejection(&vec![Some(wrong_code)]));
}

#[test]
fn fallback_only_after_refused_plaintext() {
    let rejection = DbErrorInfo {
        code: "28000".into(),
        message: "pg_hba.conf rejects connection for host, no encryption".into(),
    };
    let other = DbErrorInfo { code: "28P01".into(), message: "password authentication failed".into() };
    assert_eq!(after_primary_attempt(true, &Ok(())), CreateStep::UsePrimary);
    assert_eq!(after_primary_attempt(false, &Ok(())), CreateStep::UsePrimary);
    assert_eq!(after_primary_attempt(true, &Err(vec![None, Some(rejection.clone())])), CreateStep::TryFallback);
    assert_eq!(after_primary_attempt(false, &Err(vec![Some(rejection)])), CreateStep::Fail);
    assert_eq!(after_primary_attempt(true, &Err(vec![Some(other)])), CreateStep::Fail);
    assert_eq!(after_primary_attempt(true, &Err(vec![])), CreateStep::Fail);
}

#[test]
fn text_equality() {
    assert!(str_eq("abc", "abc"));
    assert!(!str_eq("abc", "abd"));
    assert!(!str_eq("abc", "ab"));
    assert!(str_eq("", ""));
}

#[test]
fn pool_status_as_text() {
    let s = ConnectionPoolStatus::new(10, 4, 2, 1);
    assert_eq!(s.get_max_size(), 10);
    assert_eq!(s.get_size(), 4);
    assert_eq!(s.get_available(), 2);
    assert_eq!(s.get_waiting(), 1);
    assert_eq!(s.__str__(), "Connection Pool Status - [max_size: 10, size: 4, available: 2, waiting: 1]");
}

#[test]
fn builder_collects_settings() {
    let mut b = ConnectionPoolBuilder::new();
    assert_eq!(b.max_db_pool_size, Some(2));
    b.user("u");
    b.password("p");
    b.dbname("d");
    b.options("-c x=1");
    b.application_name("app");
    b.ssl_mode(SslMode::VerifyFull);
    b.host("h1");
    b.host("h2");
    b.hostaddr("127.0.0.1");
    b.port(1);
    b.port(2);
    b.connect_timeout(3);
    b.tcp_user_timeout(4);
    b.target_session_attrs(TargetSessionAttrs::Any);
    b.load_balance_hosts(LoadBalanceHosts::Disable);
    b.keepalives(true);
    b.keepalives_idle(5);
    b.keepalives_interval(6);
    b.keepalives_retries(7);
    b.conn_recycling_method(ConnRecyclingMethod::Verified);
    b.ca_file("/ca".into());
    assert!(b.max_pool_size(1).is_err());
    assert_eq!(b.max_db_pool_size, Some(2));
    assert!(b.max_pool_size(20).is_ok());
    let plan = b.build();
    assert_eq!(plan.max_db_pool_size, Some(20));
    assert_eq!(plan.recycling_method, ConnRecyclingMethod::Verified);
    assert!(matches!(plan.tls, TlsChoice::CaFile(ref f) if f == "/ca"));
    let c = plan.config;
    assert_eq!(c.user.as_deref(), Some("u"));
    assert_eq!(c.password.as_deref(), Some("p"));
    assert_eq!(c.dbname.as_deref(), Some("d"));
    assert_eq!(c.options.as_deref(), Some("-c x=1"));
    assert_eq!(c.application_name.as_deref(), Some("app"));
    assert_eq!(c.ssl_mode, Some(SslMode::VerifyFull));
    assert_eq!(c.hosts, vec!["h1".to_string(), "h2".to_string()]);
    assert_eq!(c.hostaddrs, vec!["127.0.0.1".to_string()]);
    assert_eq!(c.ports, vec![1, 2]);
    assert_eq!(c.connect_timeout, Some(DurationParts { secs: 3, nanos: 0 }));
    assert_eq!(c.tcp_user_timeout, Some(DurationParts { secs: 4, nanos: 0 }));
    assert_eq!(c.target_session_attrs, Some(TargetSessionAttrs::Any));
    assert_eq!(c.load_balance_hosts, Some(LoadBalanceHosts::Disable));
    assert_eq!(c.keepalives, Some(true));
    assert_eq!(c.keepalives_idle, Some(DurationParts { secs: 5, nanos: 0 }));
    assert_eq!(c.keepalives_interval, Some(DurationParts { secs: 6, nanos: 0 }));
    assert_eq!(c.keepalives_retries, Some(7));
}
