use vstd::prelude::*;

use crate::compute::{ConnCfg, NodeInfo};
use crate::credentials::AuthBackend;
use crate::errors::{ErrorKind, HttpConnError, LocalProxyConnError, ServiceFailure};
use crate::pool::ConnInfo;

verus! {

/// Interval between HTTP/2 keep-alive pings to a local proxy, in seconds.
pub const HTTP2_KEEP_ALIVE_INTERVAL_SECS: u64 = 20;

/// How long an HTTP/2 keep-alive ping may go unanswered, in seconds.
pub const HTTP2_KEEP_ALIVE_TIMEOUT_SECS: u64 = 5;

/// The configuration for one connect attempt: the node's, with the user and database
/// of the pool key and the attempt's timeout.
pub fn attempt_config(node: &ConnCfg, conn_info: &ConnInfo, timeout_ms: u64) -> (r: ConnCfg)
    ensures
        r.user == Some(conn_info.user_info.user),
        r.dbname == Some(conn_info.dbname),
        r.connect_timeout_ms == Some(timeout_ms),
        r.host == node.host,
        r.port == node.port,
        r.password == node.password,
        r.ssl_mode == node.ssl_mode,
{
    let mut cfg = node.duplicate();
    cfg.user = Some(conn_info.user_info.user.clone());
    cfg.dbname = Some(conn_info.dbname.clone());
    cfg.connect_timeout_ms = Some(timeout_ms);
    cfg
}

/// The node for a connection to the proxy's own Postgres, set up for `conn_info`.
pub fn local_postgres_node(backend: &AuthBackend, conn_info: &ConnInfo) -> (r: NodeInfo)
    requires
        backend is Local,
    ensures
        r.config.user == Some(conn_info.user_info.user),
        r.config.dbname == Some(conn_info.dbname),
        r.config.host == backend->Local_0.node_info.config.host,
        r.config.port == backend->Local_0.node_info.config.port,
        r.config.password == backend->Local_0.node_info.config.password,
        r.config.ssl_mode == backend->Local_0.node_info.config.ssl_mode,
        r.config.connect_timeout_ms == backend->Local_0.node_info.config.connect_timeout_ms,
        r.aux == backend->Local_0.node_info.aux,
        r.allow_self_signed_compute == backend->Local_0.node_info.allow_self_signed_compute,
{
    match backend {
        AuthBackend::Local(local) => {
            let mut node = local.node_info.duplicate();
            node.config.user = Some(conn_info.user_info.user.clone());
            node.config.dbname = Some(conn_info.dbname.clone());
            node
        },
        AuthBackend::ControlPlane => {
            // ruled out by the precondition
            NodeInfo { config: ConnCfg::new(), aux: String::new(), allow_self_signed_compute: false }
        },
    }
}

/// The control plane handed out an address that cannot be used.
pub fn bad_address_error(reason: &str) -> (r: HttpConnError)
    ensures
        r matches HttpConnError::WakeCompute(f) && f.kind == ErrorKind::Service && f.client_message@
            == reason@,
{
    HttpConnError::WakeCompute(
        ServiceFailure { kind: ErrorKind::Service, client_message: reason.to_owned() },
    )
}


/// The host that an attempt connects to.
pub fn target_host(cfg: &ConnCfg) -> (r: Result<String, HttpConnError>)
    ensures
        cfg.host matches Some(h) ==> r == Ok::<String, HttpConnError>(h),
        cfg.host is None ==> (r matches Err(HttpConnError::WakeCompute(f)) && f.kind
            == ErrorKind::Service && f.client_message@ == "compute address has no host"@),
{
    match &cfg.host {
        Some(h) => Ok(h.clone()),
        None => Err(bad_address_error("compute address has no host")),
    }
}

/// The port of a local proxy.
pub fn target_port(cfg: &ConnCfg) -> (r: Result<u16, HttpConnError>)
    ensures
        cfg.port matches Some(p) ==> r == Ok::<u16, HttpConnError>(p),
        cfg.port is None ==> (r matches Err(HttpConnError::WakeCompute(f)) && f.kind
            == ErrorKind::Service && f.client_message@
            == "local-proxy port missing on compute address"@),
{
    match cfg.port {
        Some(p) => Ok(p),
        None => Err(bad_address_error("local-proxy port missing on compute address")),
    }
}

/// The error of an HTTP/2 dial that ran out of addresses: the last failure, or, when
/// no address resolved at all, an input error saying so.
pub fn addresses_exhausted(last_err: Option<LocalProxyConnError>) -> (r: LocalProxyConnError)
    ensures
        last_err matches Some(e) ==> r == e,
        last_err is None ==> (r matches LocalProxyConnError::Io(m) && m@
            == "could not resolve any addresses"@),
{
    match last_err {
        Some(e) => e,
        None => LocalProxyConnError::Io("could not resolve any addresses".to_owned()),
    }
}

/// A slot under a per-host concurrency limit.
pub struct Permit {
    host_slot: (),
}

/// The concurrency limit on outbound attempts to one host.
pub struct HostLimiter {
    limit: u32,
    in_flight: u32,
    successes: u64,
    failures: u64,
}

impl HostLimiter {
    pub closed spec fn limit(&self) -> nat {
        self.limit as nat
    }

    /// Attempts holding a permit.
    pub closed spec fn in_flight(&self) -> nat {
        self.in_flight as nat
    }

    /// Attempts that released their permit with a success, and with a failure.
    pub closed spec fn outcomes(&self) -> (nat, nat) {
        (self.successes as nat, self.failures as nat)
    }

    pub fn new(limit: u32) -> (r: HostLimiter)
        ensures
            r.limit() == limit,
            r.in_flight() == 0,
            r.outcomes() == (0nat, 0nat),
    {
        HostLimiter { limit, in_flight: 0, successes: 0, failures: 0 }
    }

    pub fn in_flight_count(&self) -> (r: u32)
        ensures
            r == self.in_flight(),
    {
        self.in_flight
    }

    /// Takes a permit if the host is under its limit.
    pub fn try_acquire(&mut self) -> (r: Option<Permit>)
        ensures
            r is Some <==> old(self).in_flight() < old(self).limit(),
            final(self).limit() == old(self).limit(),
            final(self).outcomes() == old(self).outcomes(),
            r is Some ==> final(self).in_flight() == old(self).in_flight() + 1,
            r is None ==> final(self).in_flight() == old(self).in_flight(),
    {
        if self.in_flight < self.limit {
            self.in_flight = self.in_flight + 1;
            Some(Permit { host_slot: () })
        } else {
            None
        }
    }

    /// Gives the permit back, recording whether the attempt succeeded, and hands the
    /// attempt's result on unchanged: a failure reaches the caller only after its
    /// permit is released.
    pub fn release_result<T, E>(&mut self, permit: Permit, res: Result<T, E>) -> (r: Result<T, E>)
        requires
            old(self).in_flight() > 0,
        ensures
            r == res,
            final(self).limit() == old(self).limit(),
            final(self).in_flight() == old(self).in_flight() - 1,
            res is Ok ==> final(self).outcomes().1 == old(self).outcomes().1,
            res is Err ==> final(self).outcomes().0 == old(self).outcomes().0,
            res is Ok && old(self).outcomes().0 < u64::MAX ==> final(self).outcomes().0
                == old(self).outcomes().0 + 1,
            res is Err && old(self).outcomes().1 < u64::MAX ==> final(self).outcomes().1
                == old(self).outcomes().1 + 1,
    {
        let Permit { host_slot: _ } = permit;
        self.in_flight = self.in_flight - 1;
        match &res {
            Ok(_) => {
                if self.successes < u64::MAX {
                    self.successes = self.successes + 1;
                }
            },
            Err(_) => {
                if self.failures < u64::MAX {
                    self.failures = self.failures + 1;
                }
            },
        }
        res
    }
}

/// Budget of the connect retry loop.
#[derive(Clone, Copy, Debug, PartialEq, Eq, Structural)]
pub struct RetryConfig {
    pub max_retries: u32,
    /// Delay before the first retry, in milliseconds.
    pub base_delay_ms: u64,
}

/// What the retry controller does after a failed attempt.
#[derive(Clone, Copy, Debug, PartialEq, Eq, Structural)]
pub enum RetryDecision {
    /// Surface the error.
    GiveUp,
    /// Sleep and try again; when `invalidate_node` is set, drop the cached node info
    /// and wake the compute node first.
    Retry { invalidate_node: bool },
}

/// Decides on a failed attempt, after `num_retries` retries so far.
pub fn decide_retry(err: &HttpConnError, num_retries: u32, config: &RetryConfig) -> (r:
    RetryDecision)
    ensures
        r == (if err.retryable() && num_retries < config.max_retries {
            RetryDecision::Retry { invalidate_node: err.needs_wake() }
        } else {
            RetryDecision::GiveUp
        }),
{
    if err.could_retry() && num_retries < config.max_retries {
        RetryDecision::Retry { invalidate_node: err.should_retry_wake_compute() }
    } else {
        RetryDecision::GiveUp
    }
}

/// The next step of the connect loop.
#[derive(Clone, Copy, Debug, PartialEq, Eq, Structural)]
pub enum ConnectAction {
    /// Ask the control plane to wake the compute node, for fresh node info.
    WakeCompute,
    /// Make one attempt with the current node info.
    Connect,
    /// Wait before the next step.
    Sleep { delay_ms: u64 },
    /// Surface the last error.
    Fail,
}

/// Drives "wake the compute node, attempt to connect, classify the error, maybe retry".
pub struct ConnectController {
    config: RetryConfig,
    num_retries: u32,
    node_valid: bool,
    wakes: Ghost<nat>,
}

impl ConnectController {
    pub closed spec fn config(&self) -> RetryConfig {
        self.config
    }

    pub closed spec fn num_retries(&self) -> nat {
        self.num_retries as nat
    }

    /// Whether the node info in hand may be used for an attempt.
    pub closed spec fn node_valid(&self) -> bool {
        self.node_valid
    }

    /// Wakes requested so far.
    pub closed spec fn wakes(&self) -> nat {
        self.wakes@
    }

    pub closed spec fn wf(&self) -> bool {
        self.num_retries <= self.config.max_retries
    }

    /// Starts the loop. Node info attached to the credentials is used as it is;
    /// otherwise the compute node is woken first.
    pub fn start(config: RetryConfig, node_attached: bool) -> (r: (ConnectController, ConnectAction))
        ensures
            r.0.wf(),
            r.0.config() == config,
            r.0.num_retries() == 0,
            r.0.node_valid() == node_attached,
            node_attached ==> r.1 == ConnectAction::Connect && r.0.wakes() == 0,
            !node_attached ==> r.1 == ConnectAction::WakeCompute && r.0.wakes() == 1,
    {
        if node_attached {
            (
                ConnectController {
                    config,
                    num_retries: 0,
                    node_valid: true,
                    wakes: Ghost(0),
                },
                ConnectAction::Connect,
            )
        } else {
            (
                ConnectController {
                    config,
                    num_retries: 0,
                    node_valid: false,
                    wakes: Ghost(1),
                },
                ConnectAction::WakeCompute,
            )
        }
    }

    /// Fresh node info arrived from the control plane.
    pub fn on_woken(&mut self) -> (r: ConnectAction)
        requires
            old(self).wf(),
        ensures
            final(self).wf(),
            r == ConnectAction::Connect,
            final(self).node_valid(),
            final(self).config() == old(self).config(),
            final(self).num_retries() == old(self).num_retries(),
            final(self).wakes() == old(self).wakes(),
    {
        self.node_valid = true;
        ConnectAction::Connect
    }

    /// An attempt failed with `err`. A retryable error within budget sleeps first,
    /// having dropped the node info when the error casts doubt on it; anything else fails.
    pub fn on_failure(&mut self, err: &HttpConnError) -> (r: ConnectAction)
        requires
            old(self).wf(),
        ensures
            final(self).wf(),
            final(self).config() == old(self).config(),
            final(self).wakes() == old(self).wakes(),
            !(err.retryable() && old(self).num_retries() < old(self).config().max_retries) ==> {
                &&& r == ConnectAction::Fail
                &&& final(self).num_retries() == old(self).num_retries()
            },
            err.retryable() && old(self).num_retries() < old(self).config().max_retries ==> {
                &&& r == ConnectAction::Sleep { delay_ms: old(self).config().base_delay_ms }
                &&& final(self).num_retries() == old(self).num_retries() + 1
                &&& final(self).node_valid() == (old(self).node_valid() && !err.needs_wake())
            },
    {
        match decide_retry(err, self.num_retries, &self.config) {
            RetryDecision::GiveUp => ConnectAction::Fail,
            RetryDecision::Retry { invalidate_node } => {
                self.num_retries = self.num_retries + 1;
                if invalidate_node {
                    self.node_valid = false;
                }
                ConnectAction::Sleep { delay_ms: self.config.base_delay_ms }
            },
        }
    }

    /// The sleep is over: wake first if the node info was dropped, else attempt again.
    pub fn on_slept(&mut self) -> (r: ConnectAction)
        requires
            old(self).wf(),
        ensures
            final(self).wf(),
            final(self).config() == old(self).config(),
            final(self).num_retries() == old(self).num_retries(),
            final(self).node_valid() == old(self).node_valid(),
            old(self).node_valid() ==> r == ConnectAction::Connect && final(self).wakes()
                == old(self).wakes(),
            !old(self).node_valid() ==> r == ConnectAction::WakeCompute && final(self).wakes()
                == old(self).wakes() + 1,
    {
        if self.node_valid {
            ConnectAction::Connect
        } else {
            self.wakes = Ghost(self.wakes@ + 1);
            ConnectAction::WakeCompute
        }
    }
}

/// The number of retries never exceeds the budget, whatever errors come.
pub proof fn lemma_retries_within_budget(c: ConnectController)
    requires
        c.wf(),
    ensures
        c.num_retries() <= c.config().max_retries,
{
}

} // verus!
