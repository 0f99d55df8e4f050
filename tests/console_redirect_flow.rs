use neon_proxy_core::compute::{DatabaseInfo, SslMode};
use neon_proxy_core::console_redirect::{
    AuthenticationConfig, ConsoleRedirectBackend, WaitOutcome,
};
use neon_proxy_core::credentials::ComputeCredentialKeys;
use neon_proxy_core::errors::{AuthError, ErrorKind, WebAuthError};
use neon_proxy_core::ip::{IpAddr, IpPattern};
use neon_proxy_core::messages::BeMessage;
use neon_proxy_core::waiters::{WaitPoll, WaiterRegistry};

const URI: &str = "https://c.example/psql_session/";
const ID: &str = "0123456789abcdef";

fn v4(a: u8, b: u8, c: u8, d: u8) -> IpAddr {
    IpAddr::V4(u32::from_be_bytes([a, b, c, d]))
}

fn db_info(host: &str, allowed_ips: Option<Vec<IpPattern>>) -> DatabaseInfo {
    DatabaseInfo {
        host: host.to_string(),
        port: 5432,
        dbname: "d".to_string(),
        user: "u".to_string(),
        password: None,
        allowed_ips,
        aux: "aux".to_string(),
    }
}

fn config(timeout_ms: u64) -> AuthenticationConfig {
    AuthenticationConfig { webauth_confirmation_timeout_ms: timeout_ms, ip_allowlist_check_enabled: true }
}

fn greet(flow: &mut neon_proxy_core::console_redirect::ConsoleRedirectFlow, registry: &mut WaiterRegistry) {
    let msgs = flow.on_session_id(registry, ID.to_string()).expect("id is free");
    assert_eq!(msgs.len(), 3);
    assert!(matches!(msgs[0], BeMessage::AuthenticationOk));
    assert!(matches!(msgs[1], BeMessage::ClientEncodingUtf8));
    match &msgs[2] {
        BeMessage::NoticeResponse(g) => {
            assert!(g.contains("https://c.example/psql_session/0123456789abcdef"));
            assert!(g.starts_with("Welcome to Neon!\n"));
        }
        other => panic!("unexpected {other:?}"),
    }
}

fn deliver(registry: &mut WaiterRegistry, info: DatabaseInfo) -> WaitOutcome {
    let id = ID.to_string();
    registry.notify(&id, info).expect("slot is pending");
    match registry.poll(&id) {
        WaitPoll::Ready(info) => WaitOutcome::Delivered(info),
        other => panic!("unexpected {other:?}"),
    }
}

#[test]
fn happy_path_requires_tls_for_sni_hosts() {
    let backend = ConsoleRedirectBackend::new(URI.to_string());
    let mut registry = WaiterRegistry::new();
    let mut flow = backend.authenticate(config(1000), v4(192, 0, 2, 5));
    greet(&mut flow, &mut registry);
    let outcome = deliver(&mut registry, db_info("h--1.db", None));
    let (msg, node) = flow.on_reply(outcome).expect("authenticated");
    match msg {
        BeMessage::NoticeResponse(t) => assert_eq!(t, "Connecting to database."),
        other => panic!("unexpected {other:?}"),
    }
    let cfg = &node.0.config;
    assert_eq!(cfg.host.as_deref(), Some("h--1.db"));
    assert_eq!(cfg.port, Some(5432));
    assert_eq!(cfg.user.as_deref(), Some("u"));
    assert_eq!(cfg.dbname.as_deref(), Some("d"));
    assert_eq!(cfg.password, None);
    assert_eq!(cfg.ssl_mode, SslMode::Require);
    assert!(!node.0.allow_self_signed_compute);
    assert_eq!(node.0.aux, "aux");
    let woken = node.wake_compute();
    assert_eq!(woken.config.host.as_deref(), Some("h--1.db"));
    assert!(matches!(node.get_keys(), ComputeCredentialKeys::Empty));
}

#[test]
fn plain_host_disables_tls() {
    let backend = ConsoleRedirectBackend::new(URI.to_string());
    let mut registry = WaiterRegistry::new();
    let mut flow = backend.authenticate(config(1000), v4(192, 0, 2, 5));
    greet(&mut flow, &mut registry);
    let outcome = deliver(&mut registry, db_info("plain.db", None));
    let (_, node) = flow.on_reply(outcome).expect("authenticated");
    assert_eq!(node.0.config.ssl_mode, SslMode::Disable);
    assert_eq!(node.0.config.host.as_deref(), Some("plain.db"));
}

#[test]
fn single_dash_host_disables_tls() {
    let backend = ConsoleRedirectBackend::new(URI.to_string());
    let mut registry = WaiterRegistry::new();
    let mut flow = backend.authenticate(config(1000), v4(192, 0, 2, 5));
    greet(&mut flow, &mut registry);
    let outcome = deliver(&mut registry, db_info("a-b-c.db", None));
    let (_, node) = flow.on_reply(outcome).expect("authenticated");
    assert_eq!(node.0.config.ssl_mode, SslMode::Disable);
}

#[test]
fn password_is_carried_into_the_config() {
    let backend = ConsoleRedirectBackend::new(URI.to_string());
    let mut registry = WaiterRegistry::new();
    let mut flow = backend.authenticate(config(1000), v4(192, 0, 2, 5));
    greet(&mut flow, &mut registry);
    let mut info = db_info("plain.db", None);
    info.password = Some("secret".to_string());
    let outcome = deliver(&mut registry, info);
    let (_, node) = flow.on_reply(outcome).expect("authenticated");
    assert_eq!(node.0.config.password.as_deref(), Some("secret"));
}

#[test]
fn timeout_fails_with_confirmation_timeout() {
    let backend = ConsoleRedirectBackend::new(URI.to_string());
    let mut registry = WaiterRegistry::new();
    let mut flow = backend.authenticate(config(100), v4(192, 0, 2, 5));
    greet(&mut flow, &mut registry);
    assert_eq!(flow.confirmation_timeout_ms(), 100);
    let err = flow.on_reply(WaitOutcome::TimedOut).err().expect("must fail");
    assert!(matches!(err, AuthError::ConfirmationTimeout(100)));
    assert_eq!(err.get_error_kind(), ErrorKind::Service);
}

#[test]
fn blocked_ip_is_refused() {
    let backend = ConsoleRedirectBackend::new(URI.to_string());
    let mut registry = WaiterRegistry::new();
    let peer = v4(192, 0, 2, 5);
    let mut flow = backend.authenticate(config(1000), peer);
    greet(&mut flow, &mut registry);
    let allowed = vec![IpPattern::Subnet(v4(10, 0, 0, 0), 8)];
    let outcome = deliver(&mut registry, db_info("h--1.db", Some(allowed)));
    let err = flow.on_reply(outcome).err().expect("must fail");
    assert!(matches!(err, AuthError::IpAddressNotAllowed(p) if p == peer));
    assert_eq!(err.get_error_kind(), ErrorKind::User);
}

#[test]
fn allowed_ip_passes() {
    let backend = ConsoleRedirectBackend::new(URI.to_string());
    let mut registry = WaiterRegistry::new();
    let mut flow = backend.authenticate(config(1000), v4(10, 1, 2, 3));
    greet(&mut flow, &mut registry);
    let allowed = vec![IpPattern::Subnet(v4(10, 0, 0, 0), 8)];
    let outcome = deliver(&mut registry, db_info("h--1.db", Some(allowed)));
    assert!(flow.on_reply(outcome).is_ok());
}

#[test]
fn allow_list_is_ignored_when_the_check_is_off() {
    let backend = ConsoleRedirectBackend::new(URI.to_string());
    let mut registry = WaiterRegistry::new();
    let cfg = AuthenticationConfig { webauth_confirmation_timeout_ms: 1000, ip_allowlist_check_enabled: false };
    let mut flow = backend.authenticate(cfg, v4(192, 0, 2, 5));
    greet(&mut flow, &mut registry);
    let allowed = vec![IpPattern::Subnet(v4(10, 0, 0, 0), 8)];
    let outcome = deliver(&mut registry, db_info("h--1.db", Some(allowed)));
    assert!(flow.on_reply(outcome).is_ok());
}

#[test]
fn cancelled_waiter_is_a_service_error() {
    let backend = ConsoleRedirectBackend::new(URI.to_string());
    let mut registry = WaiterRegistry::new();
    let mut flow = backend.authenticate(config(1000), v4(192, 0, 2, 5));
    greet(&mut flow, &mut registry);
    let id = ID.to_string();
    registry.drop_sender(&id).expect("slot is pending");
    let outcome = match registry.poll(&id) {
        WaitPoll::Cancelled => WaitOutcome::Cancelled,
        other => panic!("unexpected {other:?}"),
    };
    let err = flow.on_reply(outcome).err().expect("must fail");
    assert!(matches!(err, AuthError::WebAuth(WebAuthError::WaiterWait)));
    assert_eq!(err.get_error_kind(), ErrorKind::Service);
    assert_eq!(err.to_string_client(), "Internal error");
}

#[test]
fn broken_client_stream_is_a_client_disconnect() {
    let backend = ConsoleRedirectBackend::new(URI.to_string());
    let mut flow = backend.authenticate(config(1000), v4(192, 0, 2, 5));
    let err = flow.on_client_write_failed();
    assert_eq!(err.get_error_kind(), ErrorKind::ClientDisconnect);
}

#[test]
fn colliding_id_is_reminted() {
    let backend = ConsoleRedirectBackend::new(URI.to_string());
    let mut registry = WaiterRegistry::new();
    registry.register(ID.to_string()).expect("free");
    let mut flow = backend.authenticate(config(1000), v4(192, 0, 2, 5));
    assert!(flow.on_session_id(&mut registry, ID.to_string()).is_none());
    let msgs = flow.on_session_id(&mut registry, "fedcba9876543210".to_string());
    let msgs = msgs.expect("second id is free");
    match &msgs[2] {
        BeMessage::NoticeResponse(g) => assert!(g.contains("https://c.example/psql_session/fedcba9876543210")),
        other => panic!("unexpected {other:?}"),
    }
}
