use vstd::prelude::*;

use crate::ip::IpPattern;

verus! {

/// TLS requirement on the backend leg.
#[derive(Clone, Copy, Debug, PartialEq, Eq, Structural)]
pub enum SslMode {
    Disable,
    Prefer,
    Require,
}

/// Backend connection parameters.
#[derive(Debug)]
pub struct ConnCfg {
    pub host: Option<String>,
    pub port: Option<u16>,
    pub dbname: Option<String>,
    pub user: Option<String>,
    pub password: Option<String>,
    pub ssl_mode: SslMode,
    pub connect_timeout_ms: Option<u64>,
}

/// Backend coordinates delivered by the control plane.
#[derive(Debug)]
pub struct DatabaseInfo {
    pub host: String,
    pub port: u16,
    pub dbname: String,
    pub user: String,
    pub password: Option<String>,
    pub allowed_ips: Option<Vec<IpPattern>>,
    /// Opaque telemetry label forwarded with the node.
    pub aux: String,
}

/// A resolved target for a backend connection.
#[derive(Debug)]
pub struct NodeInfo {
    pub config: ConnCfg,
    pub aux: String,
    pub allow_self_signed_compute: bool,
}

/// Whether `s` holds two consecutive dashes.
pub open spec fn has_double_dash(s: Seq<char>) -> bool {
    exists|i: int| 0 <= i && i + 1 < s.len() && #[trigger] s[i] == '-' && s[i + 1] == '-'
}

/// Hosts whose name routes through an SNI proxy need TLS; the others do not.
pub open spec fn ssl_mode_for_host(host: Seq<char>) -> SslMode {
    if has_double_dash(host) {
        SslMode::Require
    } else {
        SslMode::Disable
    }
}

pub fn contains_double_dash(s: &str) -> (r: bool)
    ensures
        r == has_double_dash(s@),
{
    let n = s.unicode_len();
    if n < 2 {
        return false;
    }
    let mut i: usize = 0;
    while i + 1 < n
        invariant
            n == s@.len(),
            n >= 2,
            i + 1 <= n,
            forall|j: int| 0 <= j < i ==> !(#[trigger] s@[j] == '-' && s@[j + 1] == '-'),
        decreases n - i,
    {
        if s.get_char(i) == '-' && s.get_char(i + 1) == '-' {
            return true;
        }
        i = i + 1;
    }
    false
}

impl ConnCfg {
    /// A configuration that names nothing yet.
    pub fn new() -> (r: ConnCfg)
        ensures
            r.host is None,
            r.port is None,
            r.dbname is None,
            r.user is None,
            r.password is None,
            r.ssl_mode == SslMode::Prefer,
            r.connect_timeout_ms is None,
    {
        ConnCfg {
            host: None,
            port: None,
            dbname: None,
            user: None,
            password: None,
            ssl_mode: SslMode::Prefer,
            connect_timeout_ms: None,
        }
    }
}

/// `n` is the node that the control plane's reply `db` describes.
pub open spec fn node_built_from(n: NodeInfo, db: DatabaseInfo) -> bool {
    &&& n.config.host == Some(db.host)
    &&& n.config.port == Some(db.port)
    &&& n.config.dbname == Some(db.dbname)
    &&& n.config.user == Some(db.user)
    &&& n.config.password == db.password
    &&& n.config.ssl_mode == ssl_mode_for_host(db.host@)
    &&& n.config.connect_timeout_ms is None
    &&& n.aux == db.aux
    &&& !n.allow_self_signed_compute
}

fn copy_opt_string(s: &Option<String>) -> (r: Option<String>)
    ensures
        r == *s,
{
    match s {
        Some(v) => Some(v.clone()),
        None => None,
    }
}

impl ConnCfg {
    /// A field-for-field copy.
    pub fn duplicate(&self) -> (r: ConnCfg)
        ensures
            r == *self,
    {
        ConnCfg {
            host: copy_opt_string(&self.host),
            port: self.port,
            dbname: copy_opt_string(&self.dbname),
            user: copy_opt_string(&self.user),
            password: copy_opt_string(&self.password),
            ssl_mode: self.ssl_mode,
            connect_timeout_ms: self.connect_timeout_ms,
        }
    }
}

impl NodeInfo {
    /// A field-for-field copy.
    pub fn duplicate(&self) -> (r: NodeInfo)
        ensures
            r == *self,
    {
        NodeInfo {
            config: self.config.duplicate(),
            aux: self.aux.clone(),
            allow_self_signed_compute: self.allow_self_signed_compute,
        }
    }
}

/// Builds a self-contained backend configuration from the control plane's reply.
/// Nothing from the client's startup message is used.
pub fn node_info_from_database_info(db: DatabaseInfo) -> (r: NodeInfo)
    ensures
        node_built_from(r, db),
{
    // Hosts behind the SNI proxy carry "--" in their names and need TLS for routing.
    let ssl_mode = if contains_double_dash(db.host.as_str()) {
        SslMode::Require
    } else {
        SslMode::Disable
    };
    let config = ConnCfg {
        host: Some(db.host),
        port: Some(db.port),
        dbname: Some(db.dbname),
        user: Some(db.user),
        password: db.password,
        ssl_mode,
        connect_timeout_ms: None,
    };
    NodeInfo { config, aux: db.aux, allow_self_signed_compute: false }
}

} // verus!
