//! Making a connection pool: the checks on its settings, the choice of
//! TLS, the status the pool reports, and the builder of its settings.

use vstd::prelude::*;

use crate::config::{build_connection_config, config_matches, dsn_parse_error, nanosec_error, ConnectionConfig, ConnectionParams};
use crate::errors::{PSQLPyResult, RustPSQLDriverError};
use crate::options::{ConnRecyclingMethod, LoadBalanceHosts, SslMode, TargetSessionAttrs};
use crate::config::DurationParts;
use crate::text::{decimal, push_decimal, push_str, str_to_chars};

verus! {

/// A snapshot of a pool's occupancy.
#[derive(Clone, Copy, Debug, PartialEq, Eq, Structural)]
pub struct ConnectionPoolStatus {
    /// The maximum size of the pool.
    pub max_size: usize,
    /// The current size of the pool.
    pub size: usize,
    /// The number of available objects in the pool.
    pub available: usize,
    /// The number of futures waiting for an object.
    pub waiting: usize,
}

pub open spec fn status_text(s: ConnectionPoolStatus) -> Seq<char> {
    "Connection Pool Status - [max_size: "@ + decimal(s.max_size as nat) + ", size: "@ + decimal(s.size as nat)
        + ", available: "@ + decimal(s.available as nat) + ", waiting: "@ + decimal(s.waiting as nat) + "]"@
}

impl ConnectionPoolStatus {
    pub fn new(max_size: usize, size: usize, available: usize, waiting: usize) -> (s: Self)
        ensures
            s == (ConnectionPoolStatus { max_size, size, available, waiting }),
    {
        ConnectionPoolStatus { max_size, size, available, waiting }
    }

    pub fn get_max_size(&self) -> (r: usize)
        ensures
            r == self.max_size,
    {
        self.max_size
    }

    pub fn get_size(&self) -> (r: usize)
        ensures
            r == self.size,
    {
        self.size
    }

    pub fn get_available(&self) -> (r: usize)
        ensures
            r == self.available,
    {
        self.available
    }

    pub fn get_waiting(&self) -> (r: usize)
        ensures
            r == self.waiting,
    {
        self.waiting
    }

    /// The status as text.
    pub fn __str__(&self) -> (s: String)
        ensures
            s@ == status_text(*self),
    {
        let mut s = String::new();
        push_str(&mut s, "Connection Pool Status - [max_size: ");
        push_decimal(&mut s, self.max_size as u64);
        push_str(&mut s, ", size: ");
        push_decimal(&mut s, self.size as u64);
        push_str(&mut s, ", available: ");
        push_decimal(&mut s, self.available as u64);
        push_str(&mut s, ", waiting: ");
        push_decimal(&mut s, self.waiting as u64);
        push_str(&mut s, "]");
        assert(s@ =~= status_text(*self));
        s
    }
}

/// How connections are secured.
#[derive(Clone, Debug)]
pub enum TlsChoice {
    /// No TLS.
    NoTls,
    /// TLS, trusting the certificate authorities of this file.
    CaFile(String),
    /// TLS without verifying the server's certificate.
    NoVerify,
}

/// A certificate file asks for TLS that trusts it; otherwise `require`
/// asks for TLS without verification; anything else for no TLS.
pub open spec fn tls_choice_matches(t: TlsChoice, ca_file: Option<String>, ssl_mode: Option<SslMode>) -> bool {
    match ca_file {
        Some(f) => t matches TlsChoice::CaFile(g) && g@ == f@,
        None => if ssl_mode == Some(SslMode::Require) { t is NoVerify } else { t is NoTls },
    }
}

/// Chooses how connections are secured.
pub fn build_tls(ca_file: &Option<String>, ssl_mode: &Option<SslMode>) -> (t: TlsChoice)
    ensures
        tls_choice_matches(t, *ca_file, *ssl_mode),
{
    if let Some(ca_file) = ca_file {
        TlsChoice::CaFile(ca_file.clone())
    } else if *ssl_mode == Some(SslMode::Require) {
        TlsChoice::NoVerify
    } else {
        TlsChoice::NoTls
    }
}

/// How the pool's connection manager is made.
#[derive(Clone, Debug)]
pub enum ManagerPlan {
    /// One manager, connecting with this TLS choice.
    Single(TlsChoice),
    /// For `allow`: a plaintext manager (ssl mode `disable`, no TLS) tried
    /// first, and a TLS manager (ssl mode `require`) that takes over when the
    /// server refuses a connection without encryption.
    AllowPair(TlsChoice),
}

/// Chooses the connection manager. Only `allow` with TLS available gets the
/// plaintext-first pair; `allow` without TLS behaves as `disable`.
pub fn build_psqlpy_manager(tls: TlsChoice, ssl_mode: Option<SslMode>) -> (m: ManagerPlan)
    ensures
        ssl_mode == Some(SslMode::Allow) && !(tls is NoTls) ==> (m matches ManagerPlan::AllowPair(t) && t == tls),
        ssl_mode == Some(SslMode::Allow) && tls is NoTls ==> (m matches ManagerPlan::Single(t) && t is NoTls),
        ssl_mode != Some(SslMode::Allow) ==> (m matches ManagerPlan::Single(t) && t == tls),
{
    if ssl_mode == Some(SslMode::Allow) {
        match tls {
            TlsChoice::NoTls => ManagerPlan::Single(TlsChoice::NoTls),
            other => ManagerPlan::AllowPair(other),
        }
    } else {
        ManagerPlan::Single(tls)
    }
}

/// What a database error carries that matters here: its SQLSTATE code and
/// its message.
#[derive(Clone, Debug)]
pub struct DbErrorInfo {
    pub code: String,
    pub message: String,
}

/// Whether `pattern` occurs in `s`.
pub open spec fn contains_seq(s: Seq<char>, pattern: Seq<char>) -> bool {
    exists|i: int| 0 <= i <= s.len() - pattern.len() && #[trigger] s.subrange(i, i + pattern.len()) == pattern
}

/// Whether an error is the server's refusal of a connection without
/// encryption: SQLSTATE `28000` (invalid authorization specification) with
/// a message that mentions `no encryption`.
pub open spec fn is_rejection(e: DbErrorInfo) -> bool {
    e.code@ == "28000"@ && contains_seq(e.message@, "no encryption"@)
}

/// Whether two texts are equal.
pub fn str_eq(a: &str, b: &str) -> (r: bool)
    ensures
        r == (a@ == b@),
{
    let av = str_to_chars(a);
    let bv = str_to_chars(b);
    if av.len() != bv.len() {
        return false;
    }
    let mut i: usize = 0;
    while i < av.len()
        invariant
            i <= av.len() == bv.len(),
            av@ == a@,
            bv@ == b@,
            forall|k: int| 0 <= k < i ==> av@[k] == bv@[k],
        decreases av.len() - i,
    {
        if av[i] != bv[i] {
            return false;
        }
        i = i + 1;
    }
    assert(av@ =~= bv@);
    true
}

fn contains_str(s: &str, pattern: &str) -> (b: bool)
    ensures
        b == contains_seq(s@, pattern@),
{
    let sv = str_to_chars(s);
    let pv = str_to_chars(pattern);
    if pv.len() > sv.len() {
        assert forall|i: int| 0 <= i <= sv@.len() - pv@.len() implies #[trigger] sv@.subrange(i, i + pv@.len()) != pv@ by {}
        return false;
    }
    let mut i: usize = 0;
    while i <= sv.len() - pv.len()
        invariant
            pv.len() <= sv.len(),
            i <= sv.len() - pv.len() + 1,
            sv@ == s@,
            pv@ == pattern@,
            forall|k: int| 0 <= k < i ==> #[trigger] sv@.subrange(k, k + pv@.len()) != pv@,
        decreases sv.len() - pv.len() + 1 - i,
    {
        let mut j: usize = 0;
        while j < pv.len() && sv[i + j] == pv[j]
            invariant
                pv.len() <= sv.len(),
                i <= sv.len() - pv.len(),
                j <= pv.len(),
                forall|t: int| 0 <= t < j ==> sv@[i + t] == pv@[t],
            decreases pv.len() - j,
        {
            j = j + 1;
        }
        if j == pv.len() {
            assert(sv@.subrange(i as int, i + pv@.len()) =~= pv@);
            return true;
        }
        assert(sv@.subrange(i as int, i + pv@.len())[j as int] != pv@[j as int]);
        i = i + 1;
    }
    false
}

/// Whether an error chain holds the server's refusal of a connection
/// without encryption.
pub open spec fn chain_has_rejection(chain: Seq<Option<DbErrorInfo>>) -> bool {
    exists|i: int| 0 <= i < chain.len() && (#[trigger] chain[i] matches Some(e) && is_rejection(e))
}

/// Whether any error of a chain (an error and the errors it was caused
/// by; `None` for one that is not a database error) is the server's refusal
/// of a connection without encryption.
pub fn is_ssl_required_rejection(chain: &Vec<Option<DbErrorInfo>>) -> (b: bool)
    ensures
        b == chain_has_rejection(chain@),
{
    let mut i: usize = 0;
    while i < chain.len()
        invariant
            i <= chain.len(),
            forall|k: int| 0 <= k < i ==> !(#[trigger] chain@[k] matches Some(e) && is_rejection(e)),
        decreases chain.len() - i,
    {
        if let Some(e) = &chain[i] {
            if str_eq(e.code.as_str(), "28000") && contains_str(e.message.as_str(), "no encryption") {
                assert(chain@[i as int] matches Some(e) && is_rejection(e));
                return true;
            }
        }
        i = i + 1;
    }
    false
}

/// What a pool does once its primary way of connecting has been tried.
#[derive(Clone, Copy, Debug, PartialEq, Eq, Structural)]
pub enum CreateStep {
    /// The primary attempt gave a connection: use it.
    UsePrimary,
    /// Try the TLS fallback.
    TryFallback,
    /// Report the primary attempt's error.
    Fail,
}

/// The decision after the primary attempt to open a connection: its
/// connection is used; on failure the TLS fallback, where the pool has one,
/// is tried only when the error chain holds the server's refusal of a
/// connection without encryption; any other failure is reported.
pub fn after_primary_attempt(has_fallback: bool, primary: &Result<(), Vec<Option<DbErrorInfo>>>) -> (s: CreateStep)
    ensures
        primary is Ok ==> s == CreateStep::UsePrimary,
        primary matches Err(chain) ==> s == (if has_fallback && chain_has_rejection(chain@) {
            CreateStep::TryFallback
        } else {
            CreateStep::Fail
        }),
{
    match primary {
        Ok(()) => CreateStep::UsePrimary,
        Err(chain) => {
            if has_fallback && is_ssl_required_rejection(chain) {
                CreateStep::TryFallback
            } else {
                CreateStep::Fail
            }
        },
    }
}

} // verus!

verus! {

/// What a pool is made with.
#[derive(Clone, Debug)]
pub struct PoolPlan {
    pub config: ConnectionConfig,
    pub recycling_method: ConnRecyclingMethod,
    pub tls: TlsChoice,
    pub max_db_pool_size: Option<usize>,
    pub ca_file: Option<String>,
    pub ssl_mode: Option<SslMode>,
}

/// Checks the pool settings and gives what the pool is made with: a pool
/// must allow at least two connections; connections are checked with the
/// fast method unless another is asked for.
#[allow(clippy::too_many_arguments)]
pub fn connect(
    dsn: Option<String>,
    username: Option<String>,
    password: Option<String>,
    host: Option<String>,
    hosts: Option<Vec<String>>,
    port: Option<u16>,
    ports: Option<Vec<u16>>,
    db_name: Option<String>,
    target_session_attrs: Option<TargetSessionAttrs>,
    options: Option<String>,
    application_name: Option<String>,
    connect_timeout_sec: Option<u64>,
    connect_timeout_nanosec: Option<u32>,
    tcp_user_timeout_sec: Option<u64>,
    tcp_user_timeout_nanosec: Option<u32>,
    keepalives: Option<bool>,
    keepalives_idle_sec: Option<u64>,
    keepalives_idle_nanosec: Option<u32>,
    keepalives_interval_sec: Option<u64>,
    keepalives_interval_nanosec: Option<u32>,
    keepalives_retries: Option<u32>,
    load_balance_hosts: Option<LoadBalanceHosts>,
    ssl_mode: Option<SslMode>,
    ca_file: Option<String>,
    max_db_pool_size: Option<usize>,
    conn_recycling_method: Option<ConnRecyclingMethod>,
) -> (r: PSQLPyResult<PoolPlan>)
    ensures
        ({
            let p = ConnectionParams {
                dsn, username, password, host, hosts, port, ports, db_name, target_session_attrs,
                options, application_name, connect_timeout_sec, connect_timeout_nanosec,
                tcp_user_timeout_sec, tcp_user_timeout_nanosec, keepalives, keepalives_idle_sec,
                keepalives_idle_nanosec, keepalives_interval_sec, keepalives_interval_nanosec,
                keepalives_retries, load_balance_hosts, ssl_mode,
            };
            let dsn_error = match dsn { Some(d) => dsn_parse_error(d@), None => None };
            let size_ok = match max_db_pool_size { Some(n) => n >= 2, None => true };
            &&& (!size_ok ==> (r matches Err(e) && e matches RustPSQLDriverError::ConnectionPoolConfigurationError(m)
                && m@ == "Maximum database pool size must be more than 1"@))
            &&& (size_ok ==> (nanosec_error(p) matches Some(m) ==> (r matches Err(e)
                && e matches RustPSQLDriverError::ConnectionPoolConfigurationError(em) && em@ == m)))
            &&& (size_ok && nanosec_error(p) is None && dsn_error is Some ==> (r matches Err(e)
                && e matches RustPSQLDriverError::ConnectionPoolBuildError(em)
                && em@ == "Cannot parse configuration from dsn string, error - "@ + dsn_error->0))
            &&& (size_ok && nanosec_error(p) is None && dsn_error is None ==> (r matches Ok(plan)
                && config_matches(plan.config, p)
                && plan.recycling_method == (match conn_recycling_method { Some(m) => m, None => ConnRecyclingMethod::Fast })
                && tls_choice_matches(plan.tls, ca_file, ssl_mode)
                && plan.max_db_pool_size == max_db_pool_size
                && plan.ca_file == ca_file
                && plan.ssl_mode == ssl_mode))
        }),
{
    if let Some(size) = max_db_pool_size {
        if size < 2 {
            return Err(RustPSQLDriverError::ConnectionPoolConfigurationError(
                "Maximum database pool size must be more than 1".to_owned(),
            ));
        }
    }
    let config = build_connection_config(
        dsn, username, password, host, hosts, port, ports, db_name, target_session_attrs,
        options, application_name, connect_timeout_sec, connect_timeout_nanosec,
        tcp_user_timeout_sec, tcp_user_timeout_nanosec, keepalives, keepalives_idle_sec,
        keepalives_idle_nanosec, keepalives_interval_sec, keepalives_interval_nanosec,
        keepalives_retries, load_balance_hosts, ssl_mode,
    )?;
    let recycling_method = match conn_recycling_method {
        Some(m) => m,
        None => ConnRecyclingMethod::Fast,
    };
    let tls = build_tls(&ca_file, &ssl_mode);
    Ok(PoolPlan { config, recycling_method, tls, max_db_pool_size, ca_file, ssl_mode })
}

/// A builder of pool settings, one setting at a time.
#[derive(Clone, Debug)]
pub struct ConnectionPoolBuilder {
    pub config: ConnectionConfig,
    pub max_db_pool_size: Option<usize>,
    pub conn_recycling_method: Option<ConnRecyclingMethod>,
    pub ca_file: Option<String>,
}

/// What a builder makes a pool with: the fast recycling method unless
/// another was set, and TLS trusting the certificate file when one was set.
#[derive(Clone, Debug)]
pub struct BuilderPlan {
    pub config: ConnectionConfig,
    pub recycling_method: ConnRecyclingMethod,
    pub tls: TlsChoice,
    pub max_db_pool_size: Option<usize>,
}

impl ConnectionPoolBuilder {
    /// A builder with no settings and a pool of at most two connections.
    pub fn new() -> (b: Self)
        ensures
            b.config.is_empty_config(),
            b.max_db_pool_size == Some(2usize),
            b.conn_recycling_method is None,
            b.ca_file is None,
    {
        ConnectionPoolBuilder {
            config: ConnectionConfig::new(),
            max_db_pool_size: Some(2),
            conn_recycling_method: None,
            ca_file: None,
        }
    }

    /// What the pool is made with.
    pub fn build(&self) -> (plan: BuilderPlan)
        ensures
            plan.config.same_settings(self.config),
            plan.recycling_method == (match self.conn_recycling_method { Some(m) => m, None => ConnRecyclingMethod::Fast }),
            match self.ca_file {
                Some(f) => plan.tls matches TlsChoice::CaFile(g) && g@ == f@,
                None => plan.tls is NoTls,
            },
            plan.max_db_pool_size == self.max_db_pool_size,
    {
        let recycling_method = match self.conn_recycling_method {
            Some(m) => m,
            None => ConnRecyclingMethod::Fast,
        };
        let tls = match &self.ca_file {
            Some(f) => TlsChoice::CaFile(f.clone()),
            None => TlsChoice::NoTls,
        };
        BuilderPlan { config: self.config.duplicate(), recycling_method, tls, max_db_pool_size: self.max_db_pool_size }
    }

    /// Sets the certificate authority file to trust.
    pub fn ca_file(&mut self, ca_file: String)
        ensures
            *final(self) == (ConnectionPoolBuilder { ca_file: Some(ca_file), ..*old(self) }),
    {
        self.ca_file = Some(ca_file);
    }

    /// Sets the maximum size of the pool, which must be at least two; a
    /// smaller size is refused and leaves the builder as it was.
    pub fn max_pool_size(&mut self, pool_size: usize) -> (r: PSQLPyResult<()>)
        ensures
            pool_size < 2 ==> (r matches Err(e) && e matches RustPSQLDriverError::ConnectionPoolConfigurationError(m)
                && m@ == "Maximum database pool size must be more than 1"@ && *final(self) == *old(self)),
            pool_size >= 2 ==> (r is Ok && *final(self) == (ConnectionPoolBuilder { max_db_pool_size: Some(pool_size), ..*old(self) })),
    {
        if pool_size < 2 {
            return Err(RustPSQLDriverError::ConnectionPoolConfigurationError(
                "Maximum database pool size must be more than 1".to_owned(),
            ));
        }
        self.max_db_pool_size = Some(pool_size);
        Ok(())
    }

    /// Sets the connection recycling method.
    pub fn conn_recycling_method(&mut self, conn_recycling_method: ConnRecyclingMethod)
        ensures
            *final(self) == (ConnectionPoolBuilder { conn_recycling_method: Some(conn_recycling_method), ..*old(self) }),
    {
        self.conn_recycling_method = Some(conn_recycling_method);
    }

    /// Sets the user to authenticate with.
    pub fn user(&mut self, user: &str)
        ensures
            final(self).config.user matches Some(u) && u@ == user@,
            final(self).config == (ConnectionConfig { user: final(self).config.user, ..old(self).config }),
            final(self).max_db_pool_size == old(self).max_db_pool_size,
            final(self).conn_recycling_method == old(self).conn_recycling_method,
            final(self).ca_file == old(self).ca_file,
    {
        self.config.user = Some(user.to_owned());
    }

    /// Sets the password to authenticate with.
    pub fn password(&mut self, password: &str)
        ensures
            final(self).config.password matches Some(u) && u@ == password@,
            final(self).config == (ConnectionConfig { password: final(self).config.password, ..old(self).config }),
            final(self).max_db_pool_size == old(self).max_db_pool_size,
            final(self).conn_recycling_method == old(self).conn_recycling_method,
            final(self).ca_file == old(self).ca_file,
    {
        self.config.password = Some(password.to_owned());
    }

    /// Sets the name of the database to connect to.
    pub fn dbname(&mut self, dbname: &str)
        ensures
            final(self).config.dbname matches Some(u) && u@ == dbname@,
            final(self).config == (ConnectionConfig { dbname: final(self).config.dbname, ..old(self).config }),
            final(self).max_db_pool_size == old(self).max_db_pool_size,
            final(self).conn_recycling_method == old(self).conn_recycling_method,
            final(self).ca_file == old(self).ca_file,
    {
        self.config.dbname = Some(dbname.to_owned());
    }

    /// Sets command line options used to configure the server.
    pub fn options(&mut self, options: &str)
        ensures
            final(self).config.options matches Some(u) && u@ == options@,
            final(self).config == (ConnectionConfig { options: final(self).config.options, ..old(self).config }),
            final(self).max_db_pool_size == old(self).max_db_pool_size,
            final(self).conn_recycling_method == old(self).conn_recycling_method,
            final(self).ca_file == old(self).ca_file,
    {
        self.config.options = Some(options.to_owned());
    }

    /// Sets the value of the `application_name` runtime parameter.
    pub fn application_name(&mut self, application_name: &str)
        ensures
            final(self).config.application_name matches Some(u) && u@ == application_name@,
            final(self).config == (ConnectionConfig { application_name: final(self).config.application_name, ..old(self).config }),
            final(self).max_db_pool_size == old(self).max_db_pool_size,
            final(self).conn_recycling_method == old(self).conn_recycling_method,
            final(self).ca_file == old(self).ca_file,
    {
        self.config.application_name = Some(application_name.to_owned());
    }

    /// Sets the SSL mode.
    pub fn ssl_mode(&mut self, ssl_mode: SslMode)
        ensures
            *final(self) == (ConnectionPoolBuilder {
                config: ConnectionConfig { ssl_mode: Some(ssl_mode), ..old(self).config },
                ..*old(self)
            }),
    {
        self.config.ssl_mode = Some(ssl_mode);
    }

    /// Adds a host; hosts are tried in the order they were added.
    pub fn host(&mut self, host: &str)
        ensures
            final(self).config.hosts@.len() == old(self).config.hosts@.len() + 1,
            final(self).config.hosts@.drop_last() == old(self).config.hosts@,
            final(self).config.hosts@.last()@ == host@,
            final(self).config == (ConnectionConfig { hosts: final(self).config.hosts, ..old(self).config }),
            final(self).max_db_pool_size == old(self).max_db_pool_size,
            final(self).conn_recycling_method == old(self).conn_recycling_method,
            final(self).ca_file == old(self).ca_file,
    {
        self.config.hosts.push(host.to_owned());
        assert(self.config.hosts@.drop_last() =~= old(self).config.hosts@);
    }

    /// Adds a host address, given as text; addresses are tried in order.
    pub fn hostaddr(&mut self, hostaddr: &str)
        ensures
            final(self).config.hostaddrs@.len() == old(self).config.hostaddrs@.len() + 1,
            final(self).config.hostaddrs@.drop_last() == old(self).config.hostaddrs@,
            final(self).config.hostaddrs@.last()@ == hostaddr@,
            final(self).config == (ConnectionConfig { hostaddrs: final(self).config.hostaddrs, ..old(self).config }),
            final(self).max_db_pool_size == old(self).max_db_pool_size,
            final(self).conn_recycling_method == old(self).conn_recycling_method,
            final(self).ca_file == old(self).ca_file,
    {
        self.config.hostaddrs.push(hostaddr.to_owned());
        assert(self.config.hostaddrs@.drop_last() =~= old(self).config.hostaddrs@);
    }

    /// Adds a port.
    pub fn port(&mut self, port: u16)
        ensures
            *final(self) == (ConnectionPoolBuilder {
                config: ConnectionConfig { ports: final(self).config.ports, ..old(self).config },
                ..*old(self)
            }),
            final(self).config.ports@ == old(self).config.ports@.push(port),
    {
        self.config.ports.push(port);
    }

    /// Sets the timeout of connection attempts, in seconds.
    pub fn connect_timeout(&mut self, connect_timeout: u64)
        ensures
            *final(self) == (ConnectionPoolBuilder {
                config: ConnectionConfig {
                    connect_timeout: Some(DurationParts { secs: connect_timeout, nanos: 0 }),
                    ..old(self).config
                },
                ..*old(self)
            }),
    {
        self.config.connect_timeout = Some(DurationParts { secs: connect_timeout, nanos: 0 });
    }

    /// Sets the TCP user timeout, in seconds.
    pub fn tcp_user_timeout(&mut self, tcp_user_timeout: u64)
        ensures
            *final(self) == (ConnectionPoolBuilder {
                config: ConnectionConfig {
                    tcp_user_timeout: Some(DurationParts { secs: tcp_user_timeout, nanos: 0 }),
                    ..old(self).config
                },
                ..*old(self)
            }),
    {
        self.config.tcp_user_timeout = Some(DurationParts { secs: tcp_user_timeout, nanos: 0 });
    }

    /// Sets the requirements of the session.
    pub fn target_session_attrs(&mut self, target_session_attrs: TargetSessionAttrs)
        ensures
            *final(self) == (ConnectionPoolBuilder {
                config: ConnectionConfig { target_session_attrs: Some(target_session_attrs), ..old(self).config },
                ..*old(self)
            }),
    {
        self.config.target_session_attrs = Some(target_session_attrs);
    }

    /// Sets the host load balancing behavior.
    pub fn load_balance_hosts(&mut self, load_balance_hosts: LoadBalanceHosts)
        ensures
            *final(self) == (ConnectionPoolBuilder {
                config: ConnectionConfig { load_balance_hosts: Some(load_balance_hosts), ..old(self).config },
                ..*old(self)
            }),
    {
        self.config.load_balance_hosts = Some(load_balance_hosts);
    }

    /// Switches TCP keepalives on or off.
    pub fn keepalives(&mut self, keepalives: bool)
        ensures
            *final(self) == (ConnectionPoolBuilder {
                config: ConnectionConfig { keepalives: Some(keepalives), ..old(self).config },
                ..*old(self)
            }),
    {
        self.config.keepalives = Some(keepalives);
    }

    /// Sets the idle time before a keepalive probe, in seconds.
    pub fn keepalives_idle(&mut self, keepalives_idle: u64)
        ensures
            *final(self) == (ConnectionPoolBuilder {
                config: ConnectionConfig {
                    keepalives_idle: Some(DurationParts { secs: keepalives_idle, nanos: 0 }),
                    ..old(self).config
                },
                ..*old(self)
            }),
    {
        self.config.keepalives_idle = Some(DurationParts { secs: keepalives_idle, nanos: 0 });
    }

    /// Sets the time between keepalive probes, in seconds.
    pub fn keepalives_interval(&mut self, keepalives_interval: u64)
        ensures
            *final(self) == (ConnectionPoolBuilder {
                config: ConnectionConfig {
                    keepalives_interval: Some(DurationParts { secs: keepalives_interval, nanos: 0 }),
                    ..old(self).config
                },
                ..*old(self)
            }),
    {
        self.config.keepalives_interval = Some(DurationParts { secs: keepalives_interval, nanos: 0 });
    }

    /// Sets the number of keepalive probes before a connection is dropped.
    pub fn keepalives_retries(&mut self, keepalives_retries: u32)
        ensures
            *final(self) == (ConnectionPoolBuilder {
                config: ConnectionConfig { keepalives_retries: Some(keepalives_retries), ..old(self).config },
                ..*old(self)
            }),
    {
        self.config.keepalives_retries = Some(keepalives_retries);
    }
}

} // verus!
