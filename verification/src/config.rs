//! Connection settings: validation of what the user passes, and the plain
//! settings the connection is then made with.

use std::str::FromStr;

use vstd::prelude::*;

use crate::errors::{PSQLPyResult, RustPSQLDriverError};
use crate::options::{ConnRecyclingMethod, LoadBalanceHosts, SslMode, TargetSessionAttrs};
use crate::query::strings_view;
use crate::text::push_str;

verus! {

/// The text of the error with which `tokio_postgres::Config::from_str`
/// rejects a connection string, or `None` when it accepts it.
pub uninterp spec fn dsn_parse_error(dsn: Seq<char>) -> Option<Seq<char>>;

/// Parses a connection string with `tokio_postgres::Config::from_str` and
/// gives the text of its error, if it fails. The outcome depends on the
/// string alone; what it is for a given string is not stated here.
#[verifier::external_body]
fn check_dsn(dsn: &str) -> (r: Option<String>)
    ensures
        match r {
            Some(m) => dsn_parse_error(dsn@) == Some(m@),
            None => dsn_parse_error(dsn@) is None,
        },
{
    tokio_postgres::Config::from_str(dsn).err().map(|err| err.to_string())
}

/// A duration as whole seconds and nanoseconds, as `Duration::new` takes it.
#[derive(Clone, Copy, Debug, PartialEq, Eq, Structural)]
pub struct DurationParts {
    pub secs: u64,
    pub nanos: u32,
}

/// The settings of a connection, as plain values. When `dsn` is given, the
/// connection string is parsed first and the other settings are applied on
/// top of it; hosts, host addresses and ports are added in order.
#[derive(Clone, Debug)]
pub struct ConnectionConfig {
    pub dsn: Option<String>,
    pub user: Option<String>,
    pub password: Option<String>,
    pub hosts: Vec<String>,
    pub hostaddrs: Vec<String>,
    pub ports: Vec<u16>,
    pub dbname: Option<String>,
    pub target_session_attrs: Option<TargetSessionAttrs>,
    pub options: Option<String>,
    pub application_name: Option<String>,
    pub ssl_mode: Option<SslMode>,
    pub connect_timeout: Option<DurationParts>,
    pub tcp_user_timeout: Option<DurationParts>,
    pub keepalives: Option<bool>,
    pub keepalives_idle: Option<DurationParts>,
    pub keepalives_interval: Option<DurationParts>,
    pub keepalives_retries: Option<u32>,
    pub load_balance_hosts: Option<LoadBalanceHosts>,
}

pub open spec fn opt_str(o: Option<String>) -> Option<Seq<char>> {
    match o {
        Some(s) => Some(s@),
        None => None,
    }
}

impl ConnectionConfig {
    /// No settings at all.
    pub open spec fn is_empty_config(&self) -> bool {
        &&& self.dsn is None
        &&& self.user is None
        &&& self.password is None
        &&& self.hosts@.len() == 0
        &&& self.hostaddrs@.len() == 0
        &&& self.ports@.len() == 0
        &&& self.dbname is None
        &&& self.target_session_attrs is None
        &&& self.options is None
        &&& self.application_name is None
        &&& self.ssl_mode is None
        &&& self.connect_timeout is None
        &&& self.tcp_user_timeout is None
        &&& self.keepalives is None
        &&& self.keepalives_idle is None
        &&& self.keepalives_interval is None
        &&& self.keepalives_retries is None
        &&& self.load_balance_hosts is None
    }

    /// The same settings, compared by the texts they hold.
    pub open spec fn same_settings(&self, other: ConnectionConfig) -> bool {
        &&& opt_str(self.dsn) == opt_str(other.dsn)
        &&& opt_str(self.user) == opt_str(other.user)
        &&& opt_str(self.password) == opt_str(other.password)
        &&& strings_view(self.hosts@) == strings_view(other.hosts@)
        &&& strings_view(self.hostaddrs@) == strings_view(other.hostaddrs@)
        &&& self.ports@ == other.ports@
        &&& opt_str(self.dbname) == opt_str(other.dbname)
        &&& self.target_session_attrs == other.target_session_attrs
        &&& opt_str(self.options) == opt_str(other.options)
        &&& opt_str(self.application_name) == opt_str(other.application_name)
        &&& self.ssl_mode == other.ssl_mode
        &&& self.connect_timeout == other.connect_timeout
        &&& self.tcp_user_timeout == other.tcp_user_timeout
        &&& self.keepalives == other.keepalives
        &&& self.keepalives_idle == other.keepalives_idle
        &&& self.keepalives_interval == other.keepalives_interval
        &&& self.keepalives_retries == other.keepalives_retries
        &&& self.load_balance_hosts == other.load_balance_hosts
    }

    /// A copy of the settings.
    pub fn duplicate(&self) -> (c: Self)
        ensures
            c.same_settings(*self),
    {
        ConnectionConfig {
            dsn: clone_opt(&self.dsn),
            user: clone_opt(&self.user),
            password: clone_opt(&self.password),
            hosts: clone_strings(&self.hosts),
            hostaddrs: clone_strings(&self.hostaddrs),
            ports: clone_ports(&self.ports),
            dbname: clone_opt(&self.dbname),
            target_session_attrs: self.target_session_attrs,
            options: clone_opt(&self.options),
            application_name: clone_opt(&self.application_name),
            ssl_mode: self.ssl_mode,
            connect_timeout: self.connect_timeout,
            tcp_user_timeout: self.tcp_user_timeout,
            keepalives: self.keepalives,
            keepalives_idle: self.keepalives_idle,
            keepalives_interval: self.keepalives_interval,
            keepalives_retries: self.keepalives_retries,
            load_balance_hosts: self.load_balance_hosts,
        }
    }

    pub fn new() -> (c: Self)
        ensures
            c.is_empty_config(),
    {
        ConnectionConfig {
            dsn: None,
            user: None,
            password: None,
            hosts: Vec::new(),
            hostaddrs: Vec::new(),
            ports: Vec::new(),
            dbname: None,
            target_session_attrs: None,
            options: None,
            application_name: None,
            ssl_mode: None,
            connect_timeout: None,
            tcp_user_timeout: None,
            keepalives: None,
            keepalives_idle: None,
            keepalives_interval: None,
            keepalives_retries: None,
            load_balance_hosts: None,
        }
    }
}

/// The connection parameters a user can pass when making a pool or a
/// connection.
#[derive(Clone, Debug)]
pub struct ConnectionParams {
    pub dsn: Option<String>,
    pub username: Option<String>,
    pub password: Option<String>,
    pub host: Option<String>,
    pub hosts: Option<Vec<String>>,
    pub port: Option<u16>,
    pub ports: Option<Vec<u16>>,
    pub db_name: Option<String>,
    pub target_session_attrs: Option<TargetSessionAttrs>,
    pub options: Option<String>,
    pub application_name: Option<String>,
    pub connect_timeout_sec: Option<u64>,
    pub connect_timeout_nanosec: Option<u32>,
    pub tcp_user_timeout_sec: Option<u64>,
    pub tcp_user_timeout_nanosec: Option<u32>,
    pub keepalives: Option<bool>,
    pub keepalives_idle_sec: Option<u64>,
    pub keepalives_idle_nanosec: Option<u32>,
    pub keepalives_interval_sec: Option<u64>,
    pub keepalives_interval_nanosec: Option<u32>,
    pub keepalives_retries: Option<u32>,
    pub load_balance_hosts: Option<LoadBalanceHosts>,
    pub ssl_mode: Option<SslMode>,
}

/// A duration from seconds and optional nanoseconds (zero when not given).
pub open spec fn duration_of(secs: Option<u64>, nanos: Option<u32>) -> Option<DurationParts> {
    match secs {
        Some(s) => Some(DurationParts { secs: s, nanos: match nanos { Some(n) => n, None => 0 } }),
        None => None,
    }
}

/// The message of the first parameter that gives nanoseconds without the
/// seconds they belong to, if any.
pub open spec fn nanosec_error(p: ConnectionParams) -> Option<Seq<char>> {
    if p.tcp_user_timeout_nanosec is Some && p.tcp_user_timeout_sec is None {
        Some("tcp_user_timeout_nanosec must be used with tcp_user_timeout_sec param."@)
    } else if p.connect_timeout_nanosec is Some && p.connect_timeout_sec is None {
        Some("connect_timeout_nanosec must be used with connect_timeout_sec param."@)
    } else if p.keepalives_idle_nanosec is Some && p.keepalives_idle_sec is None {
        Some("keepalives_idle_nanosec must be used with keepalives_idle_sec param."@)
    } else if p.keepalives_interval_nanosec is Some && p.keepalives_interval_sec is None {
        Some("keepalives_interval_nanosec must be used with keepalives_interval_sec param."@)
    } else {
        None
    }
}

/// The hosts, in the order they are tried: the list, then the single host.
pub open spec fn hosts_of(p: ConnectionParams) -> Seq<Seq<char>> {
    (match p.hosts { Some(h) => strings_view(h@), None => Seq::empty() })
        + (match p.host { Some(h) => seq![h@], None => Seq::empty() })
}

/// The ports, in order: the list, then the single port.
pub open spec fn ports_of(p: ConnectionParams) -> Seq<u16> {
    (match p.ports { Some(v) => v@, None => Seq::empty() })
        + (match p.port { Some(x) => seq![x], None => Seq::empty() })
}

/// The settings a valid set of parameters gives. A connection string takes
/// the place of the user, password, hosts, ports, database name and target
/// session attributes. Keepalives switched on carry their idle time,
/// interval and retries; switched off, they are off, whatever the
/// connection string says; not given, the base setting stays.
pub open spec fn config_matches(c: ConnectionConfig, p: ConnectionParams) -> bool {
    &&& opt_str(c.dsn) == opt_str(p.dsn)
    &&& (p.dsn is Some ==> {
        &&& c.user is None
        &&& c.password is None
        &&& c.hosts@.len() == 0
        &&& c.ports@.len() == 0
        &&& c.dbname is None
        &&& c.target_session_attrs is None
    })
    &&& (p.dsn is None ==> {
        &&& opt_str(c.user) == opt_str(p.username)
        &&& opt_str(c.password) == opt_str(p.password)
        &&& strings_view(c.hosts@) == hosts_of(p)
        &&& c.ports@ == ports_of(p)
        &&& opt_str(c.dbname) == opt_str(p.db_name)
        &&& c.target_session_attrs == p.target_session_attrs
    })
    &&& c.hostaddrs@.len() == 0
    &&& opt_str(c.options) == opt_str(p.options)
    &&& opt_str(c.application_name) == opt_str(p.application_name)
    &&& c.connect_timeout == duration_of(p.connect_timeout_sec, p.connect_timeout_nanosec)
    &&& c.tcp_user_timeout == duration_of(p.tcp_user_timeout_sec, p.tcp_user_timeout_nanosec)
    &&& (p.keepalives == Some(true) ==> {
        &&& c.keepalives == Some(true)
        &&& c.keepalives_idle == duration_of(p.keepalives_idle_sec, p.keepalives_idle_nanosec)
        &&& c.keepalives_interval == duration_of(p.keepalives_interval_sec, p.keepalives_interval_nanosec)
        &&& c.keepalives_retries == p.keepalives_retries
    })
    &&& (p.keepalives == Some(false) ==> {
        &&& c.keepalives == Some(false)
        &&& c.keepalives_idle is None
        &&& c.keepalives_interval is None
        &&& c.keepalives_retries is None
    })
    &&& (p.keepalives is None ==> {
        &&& c.keepalives is None
        &&& c.keepalives_idle is None
        &&& c.keepalives_interval is None
        &&& c.keepalives_retries is None
    })
    &&& c.load_balance_hosts == p.load_balance_hosts
    &&& c.ssl_mode == p.ssl_mode
}

fn duration(secs: Option<u64>, nanos: Option<u32>) -> (d: Option<DurationParts>)
    ensures
        d == duration_of(secs, nanos),
{
    match secs {
        Some(s) => Some(DurationParts { secs: s, nanos: match nanos { Some(n) => n, None => 0 } }),
        None => None,
    }
}

fn configuration_error(message: &str) -> (e: RustPSQLDriverError)
    ensures
        e matches RustPSQLDriverError::ConnectionPoolConfigurationError(m) && m@ == message@,
{
    RustPSQLDriverError::ConnectionPoolConfigurationError(message.to_owned())
}

fn clone_strings(v: &Vec<String>) -> (r: Vec<String>)
    ensures
        strings_view(r@) == strings_view(v@),
{
    let mut r: Vec<String> = Vec::new();
    let mut i: usize = 0;
    while i < v.len()
        invariant
            i <= v.len(),
            strings_view(r@) =~= strings_view(v@).take(i as int),
        decreases v.len() - i,
    {
        let ghost before = strings_view(r@);
        r.push(v[i].clone());
        assert(strings_view(r@) =~= before.push(v@[i as int]@));
        assert(strings_view(v@).take(i as int + 1) =~= strings_view(v@).take(i as int).push(v@[i as int]@));
        i = i + 1;
    }
    assert(strings_view(v@).take(v.len() as int) =~= strings_view(v@));
    r
}

fn clone_ports(v: &Vec<u16>) -> (r: Vec<u16>)
    ensures
        r@ == v@,
{
    let mut r: Vec<u16> = Vec::new();
    let mut i: usize = 0;
    while i < v.len()
        invariant
            i <= v.len(),
            r@ =~= v@.take(i as int),
        decreases v.len() - i,
    {
        r.push(v[i]);
        assert(v@.take(i as int + 1) =~= v@.take(i as int).push(v@[i as int]));
        i = i + 1;
    }
    assert(v@.take(v.len() as int) =~= v@);
    r
}

fn clone_opt(o: &Option<String>) -> (r: Option<String>)
    ensures
        opt_str(r) == opt_str(*o),
{
    match o {
        Some(s) => Some(s.clone()),
        None => None,
    }
}

/// The settings for a set of parameters, given what parsing the connection
/// string gave (`dsn_error`: the parser's error text, if it failed).
///
/// Parameters that give nanoseconds without seconds are refused with a
/// configuration error (the first one, in the order tcp user timeout,
/// connect timeout, keepalives idle, keepalives interval); a connection
/// string the parser refused gives a build error.
pub fn config_from_params(p: &ConnectionParams, dsn_error: Option<String>) -> (r: PSQLPyResult<ConnectionConfig>)
    ensures
        nanosec_error(*p) matches Some(m) ==> (r matches Err(e)
            && e matches RustPSQLDriverError::ConnectionPoolConfigurationError(em) && em@ == m),
        nanosec_error(*p) is None && p.dsn is Some && dsn_error is Some ==> (r matches Err(e)
            && e matches RustPSQLDriverError::ConnectionPoolBuildError(em)
            && em@ == "Cannot parse configuration from dsn string, error - "@ + dsn_error->0@),
        nanosec_error(*p) is None && (p.dsn is None || dsn_error is None) ==> (r matches Ok(c)
            && config_matches(c, *p)),
{
    if p.tcp_user_timeout_nanosec.is_some() && p.tcp_user_timeout_sec.is_none() {
        return Err(configuration_error("tcp_user_timeout_nanosec must be used with tcp_user_timeout_sec param."));
    }
    if p.connect_timeout_nanosec.is_some() && p.connect_timeout_sec.is_none() {
        return Err(configuration_error("connect_timeout_nanosec must be used with connect_timeout_sec param."));
    }
    if p.keepalives_idle_nanosec.is_some() && p.keepalives_idle_sec.is_none() {
        return Err(configuration_error("keepalives_idle_nanosec must be used with keepalives_idle_sec param."));
    }
    if p.keepalives_interval_nanosec.is_some() && p.keepalives_interval_sec.is_none() {
        return Err(configuration_error("keepalives_interval_nanosec must be used with keepalives_interval_sec param."));
    }

    let mut c = ConnectionConfig::new();
    match &p.dsn {
        Some(dsn) => {
            if let Some(err) = dsn_error {
                let mut m = String::new();
                push_str(&mut m, "Cannot parse configuration from dsn string, error - ");
                push_str(&mut m, err.as_str());
                return Err(RustPSQLDriverError::ConnectionPoolBuildError(m));
            }
            c.dsn = Some(dsn.clone());
        },
        None => {
            let mut host_list: Vec<String> = Vec::new();
            if let Some(hosts) = &p.hosts {
                let mut i: usize = 0;
                while i < hosts.len()
                    invariant
                        i <= hosts.len(),
                        strings_view(host_list@) =~= strings_view(hosts@).take(i as int),
                    decreases hosts.len() - i,
                {
                    let ghost before = strings_view(host_list@);
                    host_list.push(hosts[i].clone());
                    assert(strings_view(host_list@) =~= before.push(hosts@[i as int]@));
                    assert(strings_view(hosts@).take(i as int + 1) =~= strings_view(hosts@).take(i as int).push(hosts@[i as int]@));
                    i = i + 1;
                }
                assert(strings_view(hosts@).take(hosts.len() as int) =~= strings_view(hosts@));
            }
            if let Some(host) = &p.host {
                let ghost before = strings_view(host_list@);
                host_list.push(host.clone());
                assert(strings_view(host_list@) =~= before.push(host@));
            }
            assert(strings_view(host_list@) =~= hosts_of(*p));
            let mut port_list: Vec<u16> = Vec::new();
            if let Some(ports) = &p.ports {
                let mut i: usize = 0;
                while i < ports.len()
                    invariant
                        i <= ports.len(),
                        port_list@ =~= ports@.take(i as int),
                    decreases ports.len() - i,
                {
                    port_list.push(ports[i]);
                    assert(ports@.take(i as int + 1) =~= ports@.take(i as int).push(ports@[i as int]));
                    i = i + 1;
                }
                assert(ports@.take(ports.len() as int) =~= ports@);
            }
            if let Some(port) = p.port {
                port_list.push(port);
            }
            assert(port_list@ =~= ports_of(*p));
            c.password = clone_opt(&p.password);
            c.user = clone_opt(&p.username);
            c.hosts = host_list;
            c.ports = port_list;
            c.dbname = clone_opt(&p.db_name);
            c.target_session_attrs = p.target_session_attrs;
        },
    }

    c.options = clone_opt(&p.options);
    c.application_name = clone_opt(&p.application_name);
    c.connect_timeout = duration(p.connect_timeout_sec, p.connect_timeout_nanosec);
    c.tcp_user_timeout = duration(p.tcp_user_timeout_sec, p.tcp_user_timeout_nanosec);
    if p.keepalives == Some(true) {
        c.keepalives = Some(true);
        c.keepalives_idle = duration(p.keepalives_idle_sec, p.keepalives_idle_nanosec);
        c.keepalives_interval = duration(p.keepalives_interval_sec, p.keepalives_interval_nanosec);
        c.keepalives_retries = p.keepalives_retries;
    } else if p.keepalives == Some(false) {
        c.keepalives = Some(false);
    }
    c.load_balance_hosts = p.load_balance_hosts;
    c.ssl_mode = p.ssl_mode;
    Ok(c)
}

/// Checks the connection parameters and gives the settings to connect
/// with. The connection string, when there is one, is parsed here to find
/// out whether it is valid.
#[allow(clippy::too_many_arguments)]
pub fn build_connection_config(
    dsn: Option<String>,
    username: Option<String>,
    password: Option<String>,
    host: Option<String>,
    hosts: Option<Vec<String>>,
    port: Option<u16>,
    ports: Option<Vec<u16>>,
    db_name: Option<String>,
    target_session_attrs: Option<TargetSessionAttrs>,
    options: Option<String>,
    application_name: Option<String>,
    connect_timeout_sec: Option<u64>,
    connect_timeout_nanosec: Option<u32>,
    tcp_user_timeout_sec: Option<u64>,
    tcp_user_timeout_nanosec: Option<u32>,
    keepalives: Option<bool>,
    keepalives_idle_sec: Option<u64>,
    keepalives_idle_nanosec: Option<u32>,
    keepalives_interval_sec: Option<u64>,
    keepalives_interval_nanosec: Option<u32>,
    keepalives_retries: Option<u32>,
    load_balance_hosts: Option<LoadBalanceHosts>,
    ssl_mode: Option<SslMode>,
) -> (r: PSQLPyResult<ConnectionConfig>)
    ensures
        ({
            let p = ConnectionParams {
                dsn, username, password, host, hosts, port, ports, db_name, target_session_attrs,
                options, application_name, connect_timeout_sec, connect_timeout_nanosec,
                tcp_user_timeout_sec, tcp_user_timeout_nanosec, keepalives, keepalives_idle_sec,
                keepalives_idle_nanosec, keepalives_interval_sec, keepalives_interval_nanosec,
                keepalives_retries, load_balance_hosts, ssl_mode,
            };
            let dsn_error = match dsn { Some(d) => dsn_parse_error(d@), None => None };
            &&& (nanosec_error(p) matches Some(m) ==> (r matches Err(e)
                && e matches RustPSQLDriverError::ConnectionPoolConfigurationError(em) && em@ == m))
            &&& (nanosec_error(p) is None && dsn_error is Some ==> (r matches Err(e)
                && e matches RustPSQLDriverError::ConnectionPoolBuildError(em)
                && em@ == "Cannot parse configuration from dsn string, error - "@ + dsn_error->0))
            &&& (nanosec_error(p) is None && dsn_error is None ==> (r matches Ok(c) && config_matches(c, p)))
        }),
{
    let dsn_error = match &dsn {
        Some(d) => check_dsn(d.as_str()),
        None => None,
    };
    let p = ConnectionParams {
        dsn, username, password, host, hosts, port, ports, db_name, target_session_attrs,
        options, application_name, connect_timeout_sec, connect_timeout_nanosec,
        tcp_user_timeout_sec, tcp_user_timeout_nanosec, keepalives, keepalives_idle_sec,
        keepalives_idle_nanosec, keepalives_interval_sec, keepalives_interval_nanosec,
        keepalives_retries, load_balance_hosts, ssl_mode,
    };
    config_from_params(&p, dsn_error)
}

} // verus!
