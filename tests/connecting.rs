use neon_proxy_core::compute::{ConnCfg, NodeInfo, SslMode};
use neon_proxy_core::connect::{
    addresses_exhausted, attempt_config, decide_retry, ConnectAction, ConnectController, local_postgres_node, target_host,
    target_port, HostLimiter, RetryConfig, RetryDecision,
};
use neon_proxy_core::credentials::{AuthBackend, LocalBackend};
use neon_proxy_core::errors::{ErrorKind, HttpConnError, LocalProxyConnError, PostgresFailure};
use neon_proxy_core::pool::{ComputeUserInfo, ConnInfo};

fn key() -> ConnInfo {
    ConnInfo {
        user_info: ComputeUserInfo {
            endpoint: "ep-1".to_string(),
            user: "pool_user".to_string(),
            options: String::new(),
        },
        dbname: "pool_db".to_string(),
    }
}

fn node_cfg() -> ConnCfg {
    let mut cfg = ConnCfg::new();
    cfg.host = Some("h--1.db".to_string());
    cfg.port = Some(5432);
    cfg.user = Some("startup_user".to_string());
    cfg.dbname = Some("startup_db".to_string());
    cfg.password = Some("pw".to_string());
    cfg.ssl_mode = SslMode::Require;
    cfg
}

fn pg(could_retry: bool, wake: bool) -> HttpConnError {
    HttpConnError::PostgresConnectionError(PostgresFailure {
        kind: ErrorKind::Compute,
        could_retry,
        should_retry_wake_compute: wake,
        message: "connection refused".to_string(),
    })
}

#[test]
fn attempt_uses_the_pool_key_identity() {
    let cfg = attempt_config(&node_cfg(), &key(), 2500);
    assert_eq!(cfg.user.as_deref(), Some("pool_user"));
    assert_eq!(cfg.dbname.as_deref(), Some("pool_db"));
    assert_eq!(cfg.connect_timeout_ms, Some(2500));
    assert_eq!(cfg.host.as_deref(), Some("h--1.db"));
    assert_eq!(cfg.port, Some(5432));
    assert_eq!(cfg.password.as_deref(), Some("pw"));
    assert_eq!(cfg.ssl_mode, SslMode::Require);
}

#[test]
fn local_postgres_node_uses_the_pool_key_identity() {
    let backend = AuthBackend::Local(LocalBackend {
        node_info: NodeInfo { config: node_cfg(), aux: "aux".to_string(), allow_self_signed_compute: false },
    });
    let node = local_postgres_node(&backend, &key());
    assert_eq!(node.config.user.as_deref(), Some("pool_user"));
    assert_eq!(node.config.dbname.as_deref(), Some("pool_db"));
    assert_eq!(node.config.host.as_deref(), Some("h--1.db"));
    assert_eq!(node.config.connect_timeout_ms, None);
    assert_eq!(node.aux, "aux");
}

#[test]
fn host_and_port_are_required() {
    assert_eq!(target_host(&node_cfg()).unwrap(), "h--1.db");
    assert_eq!(target_port(&node_cfg()).unwrap(), 5432);
    let empty = ConnCfg::new();
    let e = target_port(&empty).unwrap_err();
    assert_eq!(e.to_string_client(), "local-proxy port missing on compute address");
    assert!(!e.could_retry());
    assert!(!e.should_retry_wake_compute());
    assert!(matches!(target_host(&empty), Err(HttpConnError::WakeCompute(_))));
}

#[test]
fn failed_attempt_releases_its_permit_first() {
    let mut limiter = HostLimiter::new(1);
    let permit = limiter.try_acquire().expect("under the limit");
    assert_eq!(limiter.in_flight_count(), 1);
    assert!(limiter.try_acquire().is_none());
    let res: Result<u8, HttpConnError> = Err(pg(true, true));
    let res = limiter.release_result(permit, res);
    assert_eq!(limiter.in_flight_count(), 0);
    assert!(matches!(res, Err(HttpConnError::PostgresConnectionError(_))));
    let permit = limiter.try_acquire().expect("released");
    let ok = limiter.release_result::<u8, HttpConnError>(permit, Ok(3));
    assert_eq!(ok.unwrap(), 3);
    assert_eq!(limiter.in_flight_count(), 0);
}

#[test]
fn wake_then_retry() {
    let config = RetryConfig { max_retries: 3, base_delay_ms: 100 };
    assert_eq!(decide_retry(&pg(true, true), 0, &config), RetryDecision::Retry { invalidate_node: true });
    assert_eq!(decide_retry(&pg(true, false), 0, &config), RetryDecision::Retry { invalidate_node: false });
    assert_eq!(decide_retry(&pg(false, true), 0, &config), RetryDecision::GiveUp);
    assert_eq!(decide_retry(&pg(true, true), 3, &config), RetryDecision::GiveUp);
    assert_eq!(
        decide_retry(&HttpConnError::TooManyConnectionAttempts(ErrorKind::Service), 0, &config),
        RetryDecision::GiveUp
    );
}

#[test]
fn dial_without_addresses_reports_it() {
    match addresses_exhausted(None) {
        LocalProxyConnError::Io(m) => assert_eq!(m, "could not resolve any addresses"),
        other => panic!("unexpected {other:?}"),
    }
    match addresses_exhausted(Some(LocalProxyConnError::Io("refused".into()))) {
        LocalProxyConnError::Io(m) => assert_eq!(m, "refused"),
        other => panic!("unexpected {other:?}"),
    }
}

#[test]
fn wake_then_retry_controller_wakes_once() {
    let config = RetryConfig { max_retries: 3, base_delay_ms: 100 };
    // node info attached by console-redirect credentials: no wake needed up front
    let (mut ctl, first) = ConnectController::start(config, true);
    assert_eq!(first, ConnectAction::Connect);
    let mut wakes = 0;
    // first attempt fails with an error that casts doubt on the node info
    assert_eq!(ctl.on_failure(&pg(true, true)), ConnectAction::Sleep { delay_ms: 100 });
    let next = ctl.on_slept();
    assert_eq!(next, ConnectAction::WakeCompute);
    wakes += 1;
    assert_eq!(ctl.on_woken(), ConnectAction::Connect);
    // second attempt succeeds: nothing more is asked of the controller
    assert_eq!(wakes, 1);
}

#[test]
fn controller_gives_up_after_budget_or_on_fatal_errors() {
    let config = RetryConfig { max_retries: 1, base_delay_ms: 5 };
    let (mut ctl, first) = ConnectController::start(config, false);
    assert_eq!(first, ConnectAction::WakeCompute);
    assert_eq!(ctl.on_woken(), ConnectAction::Connect);
    assert_eq!(ctl.on_failure(&pg(true, false)), ConnectAction::Sleep { delay_ms: 5 });
    assert_eq!(ctl.on_slept(), ConnectAction::Connect);
    assert_eq!(ctl.on_failure(&pg(true, false)), ConnectAction::Fail);
    let (mut ctl, _) = ConnectController::start(config, true);
    assert_eq!(ctl.on_failure(&pg(false, true)), ConnectAction::Fail);
}
