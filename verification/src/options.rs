//! Connection and transaction options as the driver's users pick them.

use vstd::prelude::*;

verus! {

/// How a pooled connection is checked before it is handed out again.
#[derive(Clone, Copy, Debug, PartialEq, Eq, Structural)]
pub enum ConnRecyclingMethod {
    Fast,
    Verified,
    Clean,
}

/// The order in which hosts are tried.
#[derive(Clone, Copy, Debug, PartialEq, Eq, Structural)]
pub enum LoadBalanceHosts {
    /// Make connection attempts to hosts in the order provided.
    Disable,
    /// Make connection attempts to hosts in a random order.
    Random,
}

/// The properties a session must have to be accepted.
#[derive(Clone, Copy, Debug, PartialEq, Eq, Structural)]
pub enum TargetSessionAttrs {
    /// No special properties are required.
    Any,
    /// The session must allow writes.
    ReadWrite,
    /// The session allow only reads.
    ReadOnly,
}

/// Whether and how TLS is used.
#[derive(Clone, Copy, Debug, PartialEq, Eq, Structural)]
pub enum SslMode {
    /// Do not use TLS.
    Disable,
    /// Pay the overhead of encryption if the server insists on it.
    Allow,
    /// Attempt to connect with TLS but allow sessions without.
    Prefer,
    /// Require the use of TLS.
    Require,
    /// Encrypt, and make sure the server is one that is trusted.
    VerifyCa,
    /// Encrypt, and make sure the server is the trusted one that was named.
    VerifyFull,
}

/// TCP keepalive settings, in whole seconds.
#[derive(Clone, Copy, Debug, PartialEq, Eq, Structural)]
pub struct KeepaliveConfig {
    /// Idle time before the first probe, in seconds.
    pub idle: u64,
    /// Time between probes, in seconds.
    pub interval: Option<u64>,
    /// Number of probes before the connection is dropped.
    pub retries: Option<u32>,
}

impl KeepaliveConfig {
    pub fn build_config(idle: u64, interval: Option<u64>, retries: Option<u32>) -> (c: Self)
        ensures
            c.idle == idle,
            c.interval == interval,
            c.retries == retries,
    {
        KeepaliveConfig { idle, interval, retries }
    }
}

/// Data format of a `COPY` command.
#[derive(Clone, Copy, Debug, PartialEq, Eq, Structural)]
pub enum CopyCommandFormat {
    TEXT,
    CSV,
    BINARY,
}

pub open spec fn copy_format_name(f: CopyCommandFormat) -> Seq<char> {
    match f {
        CopyCommandFormat::TEXT => "text"@,
        CopyCommandFormat::CSV => "csv"@,
        CopyCommandFormat::BINARY => "binary"@,
    }
}

impl CopyCommandFormat {
    /// The format's name in a `COPY ... (FORMAT ...)` clause.
    pub fn to_internal(&self) -> (s: String)
        ensures
            s@ == copy_format_name(*self),
    {
        match self {
            CopyCommandFormat::TEXT => "text".to_owned(),
            CopyCommandFormat::CSV => "csv".to_owned(),
            CopyCommandFormat::BINARY => "binary".to_owned(),
        }
    }
}

/// Transaction isolation level.
#[derive(Clone, Copy, Debug, PartialEq, Eq, Structural)]
pub enum IsolationLevel {
    ReadUncommitted,
    ReadCommitted,
    RepeatableRead,
    Serializable,
}

pub open spec fn isolation_level_name(l: IsolationLevel) -> Seq<char> {
    match l {
        IsolationLevel::ReadUncommitted => "READ UNCOMMITTED"@,
        IsolationLevel::ReadCommitted => "READ COMMITTED"@,
        IsolationLevel::RepeatableRead => "REPEATABLE READ"@,
        IsolationLevel::Serializable => "SERIALIZABLE"@,
    }
}

impl IsolationLevel {
    /// The level as it is written in SQL.
    pub fn to_str_level(&self) -> (s: String)
        ensures
            s@ == isolation_level_name(*self),
    {
        match self {
            IsolationLevel::ReadUncommitted => "READ UNCOMMITTED".to_owned(),
            IsolationLevel::ReadCommitted => "READ COMMITTED".to_owned(),
            IsolationLevel::RepeatableRead => "REPEATABLE READ".to_owned(),
            IsolationLevel::Serializable => "SERIALIZABLE".to_owned(),
        }
    }
}

/// Whether a transaction may write.
#[derive(Clone, Copy, Debug, PartialEq, Eq, Structural)]
pub enum ReadVariant {
    ReadOnly,
    ReadWrite,
}

/// The `synchronous_commit` setting of a transaction.
#[derive(Clone, Copy, Debug, PartialEq, Eq, Structural)]
pub enum SynchronousCommit {
    /// The commit acknowledgment can come before the records are flushed
    /// to disk (an asynchronous commit).
    Off,
    /// WAL records are written and flushed to local disks.
    Local,
    /// WAL records were handed over to remote instances, which acknowledged
    /// the write (not the flush).
    RemoteWrite,
    /// Waits for the synchronous standby's remote flush, if there is one.
    On,
    /// Waits until the standbys applied the commit record.
    RemoteApply,
}

pub open spec fn synchronous_commit_name(c: SynchronousCommit) -> Seq<char> {
    match c {
        SynchronousCommit::Off => "off"@,
        SynchronousCommit::Local => "local"@,
        SynchronousCommit::RemoteWrite => "remote_write"@,
        SynchronousCommit::On => "on"@,
        SynchronousCommit::RemoteApply => "remote_apply"@,
    }
}

impl SynchronousCommit {
    /// The setting as it is written in SQL.
    pub fn to_str_level(&self) -> (s: String)
        ensures
            s@ == synchronous_commit_name(*self),
    {
        match self {
            SynchronousCommit::Off => "off".to_owned(),
            SynchronousCommit::Local => "local".to_owned(),
            SynchronousCommit::RemoteWrite => "remote_write".to_owned(),
            SynchronousCommit::On => "on".to_owned(),
            SynchronousCommit::RemoteApply => "remote_apply".to_owned(),
        }
    }
}

/// Transaction settings of a listener's session.
#[derive(Clone, Copy, Debug, PartialEq, Eq, Structural)]
pub struct ListenerTransactionConfig {
    pub isolation_level: Option<IsolationLevel>,
    pub read_variant: Option<ReadVariant>,
    pub deferrable: Option<bool>,
    pub synchronous_commit: Option<SynchronousCommit>,
}

} // verus!
