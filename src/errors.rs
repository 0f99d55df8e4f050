use vstd::prelude::*;

use crate::ip::IpAddr;
use crate::text::push_str;

verus! {

/// Where a failure is attributed, for metrics and log routing.
#[derive(Clone, Copy, Debug, PartialEq, Eq, Structural)]
pub enum ErrorKind {
    ClientDisconnect,
    User,
    Service,
    Compute,
}

/// Failures of the console-redirect rendezvous.
#[derive(Clone, Copy, Debug, PartialEq, Eq, Structural)]
pub enum WebAuthError {
    /// The waiter registry refused the session id.
    WaiterRegister,
    /// The waiter was dropped before a reply arrived.
    WaiterWait,
    /// The client stream broke.
    Io,
}

impl WebAuthError {
    pub open spec fn kind(self) -> ErrorKind {
        match self {
            WebAuthError::WaiterRegister => ErrorKind::Service,
            WebAuthError::WaiterWait => ErrorKind::Service,
            WebAuthError::Io => ErrorKind::ClientDisconnect,
        }
    }

    pub fn get_error_kind(&self) -> (r: ErrorKind)
        ensures
            r == self.kind(),
    {
        match self {
            WebAuthError::WaiterRegister => ErrorKind::Service,
            WebAuthError::WaiterWait => ErrorKind::Service,
            WebAuthError::Io => ErrorKind::ClientDisconnect,
        }
    }

    pub fn to_string_client(&self) -> (r: String)
        ensures
            r@ == "Internal error"@,
    {
        "Internal error".to_owned()
    }
}

/// Authentication failures.
#[derive(Debug)]
pub enum AuthError {
    WebAuth(WebAuthError),
    /// No confirmation arrived within this many milliseconds.
    ConfirmationTimeout(u64),
    IpAddressNotAllowed(IpAddr),
    TooManyConnections,
    /// Too many failed attempts on this endpoint; the client must back off.
    TooManyAuthAttempts,
    /// Authentication failed for this user.
    AuthFailed(String),
}

impl AuthError {
    pub open spec fn kind(&self) -> ErrorKind {
        match self {
            AuthError::WebAuth(e) => e.kind(),
            AuthError::ConfirmationTimeout(_) => ErrorKind::Service,
            AuthError::IpAddressNotAllowed(_) => ErrorKind::User,
            AuthError::TooManyConnections => ErrorKind::User,
            AuthError::TooManyAuthAttempts => ErrorKind::User,
            AuthError::AuthFailed(_) => ErrorKind::User,
        }
    }

    pub open spec fn client_message(&self) -> Seq<char> {
        match self {
            AuthError::WebAuth(_) => "Internal error"@,
            AuthError::ConfirmationTimeout(_) => "Disconnected due to inactivity."@,
            AuthError::IpAddressNotAllowed(_) => "This IP address is not allowed to connect to this endpoint."@,
            AuthError::TooManyConnections => "Too many connections to this endpoint. Please try again later."@,
            AuthError::TooManyAuthAttempts => "Too many authentication attempts. Please try again later."@,
            AuthError::AuthFailed(user) => "password authentication failed for user '"@ + user@ + "'"@,
        }
    }

    pub fn get_error_kind(&self) -> (r: ErrorKind)
        ensures
            r == self.kind(),
    {
        match self {
            AuthError::WebAuth(e) => e.get_error_kind(),
            AuthError::ConfirmationTimeout(_) => ErrorKind::Service,
            AuthError::IpAddressNotAllowed(_) => ErrorKind::User,
            AuthError::TooManyConnections => ErrorKind::User,
            AuthError::TooManyAuthAttempts => ErrorKind::User,
            AuthError::AuthFailed(_) => ErrorKind::User,
        }
    }

    pub fn to_string_client(&self) -> (r: String)
        ensures
            r@ == self.client_message(),
    {
        match self {
            AuthError::WebAuth(e) => e.to_string_client(),
            AuthError::ConfirmationTimeout(_) => "Disconnected due to inactivity.".to_owned(),
            AuthError::IpAddressNotAllowed(_) => {
                "This IP address is not allowed to connect to this endpoint.".to_owned()
            },
            AuthError::TooManyConnections => {
                "Too many connections to this endpoint. Please try again later.".to_owned()
            },
            AuthError::TooManyAuthAttempts => {
                "Too many authentication attempts. Please try again later.".to_owned()
            },
            AuthError::AuthFailed(user) => {
                let mut s = "password authentication failed for user '".to_owned();
                push_str(&mut s, user.as_str());
                push_str(&mut s, "'");
                s
            },
        }
    }
}

/// A failed Postgres connect, with the classification its cause gives it.
#[derive(Debug)]
pub struct PostgresFailure {
    pub kind: ErrorKind,
    pub could_retry: bool,
    pub should_retry_wake_compute: bool,
    pub message: String,
}

/// A failure reported by the control plane, with the text the client may see.
#[derive(Debug)]
pub struct ServiceFailure {
    pub kind: ErrorKind,
    pub client_message: String,
}

/// Failures of the HTTP/2 tunnel to a local proxy.
#[derive(Debug)]
pub enum LocalProxyConnError {
    Io(String),
    H2(String),
}

impl LocalProxyConnError {
    pub open spec fn message(&self) -> Seq<char> {
        match self {
            LocalProxyConnError::Io(_) => "error with connection to local-proxy"@,
            LocalProxyConnError::H2(_) => "could not establish h2 connection"@,
        }
    }

    pub fn get_error_kind(&self) -> (r: ErrorKind)
        ensures
            r == ErrorKind::Compute,
    {
        match self {
            LocalProxyConnError::Io(_) => ErrorKind::Compute,
            LocalProxyConnError::H2(_) => ErrorKind::Compute,
        }
    }

    pub fn to_string_client(&self) -> (r: String)
        ensures
            r@ == "Could not establish HTTP connection to the database"@,
    {
        "Could not establish HTTP connection to the database".to_owned()
    }

    /// The error's own description.
    pub fn describe(&self) -> (r: String)
        ensures
            r@ == self.message(),
    {
        match self {
            LocalProxyConnError::Io(_) => "error with connection to local-proxy".to_owned(),
            LocalProxyConnError::H2(_) => "could not establish h2 connection".to_owned(),
        }
    }

    pub fn could_retry(&self) -> (r: bool)
        ensures
            !r,
    {
        match self {
            LocalProxyConnError::Io(_) => false,
            LocalProxyConnError::H2(_) => false,
        }
    }

    pub fn should_retry_wake_compute(&self) -> (r: bool)
        ensures
            !r,
    {
        match self {
            LocalProxyConnError::Io(_) => false,
            LocalProxyConnError::H2(_) => false,
        }
    }
}

/// Failures on the HTTP-fronted connect path.
#[derive(Debug)]
pub enum HttpConnError {
    /// A pooled connection's driver ended in an inconsistent state.
    ConnectionClosedAbruptly,
    PostgresConnectionError(PostgresFailure),
    LocalProxyConnectionError(LocalProxyConnError),
    /// The token payload could not be parsed; the parser's message.
    JwtPayloadError(String),
    GetAuthInfo(ServiceFailure),
    AuthError(AuthError),
    WakeCompute(ServiceFailure),
    /// No per-host permit could be had; the limiter's error kind.
    TooManyConnectionAttempts(ErrorKind),
}

impl HttpConnError {
    pub open spec fn kind(&self) -> ErrorKind {
        match self {
            HttpConnError::ConnectionClosedAbruptly => ErrorKind::Compute,
            HttpConnError::PostgresConnectionError(p) => p.kind,
            HttpConnError::LocalProxyConnectionError(_) => ErrorKind::Compute,
            HttpConnError::JwtPayloadError(_) => ErrorKind::User,
            HttpConnError::GetAuthInfo(a) => a.kind,
            HttpConnError::AuthError(a) => a.kind(),
            HttpConnError::WakeCompute(w) => w.kind,
            HttpConnError::TooManyConnectionAttempts(k) => *k,
        }
    }

    pub open spec fn client_message(&self) -> Seq<char> {
        match self {
            HttpConnError::ConnectionClosedAbruptly => "pooled connection closed at inconsistent state"@,
            HttpConnError::PostgresConnectionError(p) => p.message@,
            HttpConnError::LocalProxyConnectionError(p) => p.message(),
            HttpConnError::JwtPayloadError(m) => m@,
            HttpConnError::GetAuthInfo(c) => c.client_message@,
            HttpConnError::AuthError(c) => c.client_message(),
            HttpConnError::WakeCompute(c) => c.client_message@,
            HttpConnError::TooManyConnectionAttempts(_) => "Failed to acquire permit to connect to the database. Too many database connection attempts are currently ongoing."@,
        }
    }

    /// Whether the attempt that failed this way may be repeated.
    pub open spec fn retryable(&self) -> bool {
        match self {
            HttpConnError::PostgresConnectionError(p) => p.could_retry,
            _ => false,
        }
    }

    /// Whether a repeat must first force fresh node info.
    pub open spec fn needs_wake(&self) -> bool {
        match self {
            HttpConnError::PostgresConnectionError(p) => p.should_retry_wake_compute,
            HttpConnError::ConnectionClosedAbruptly => true,
            HttpConnError::LocalProxyConnectionError(_) => true,
            HttpConnError::GetAuthInfo(_) => true,
            _ => false,
        }
    }

    pub fn get_error_kind(&self) -> (r: ErrorKind)
        ensures
            r == self.kind(),
    {
        match self {
            HttpConnError::ConnectionClosedAbruptly => ErrorKind::Compute,
            HttpConnError::PostgresConnectionError(p) => p.kind,
            HttpConnError::LocalProxyConnectionError(_) => ErrorKind::Compute,
            HttpConnError::JwtPayloadError(_) => ErrorKind::User,
            HttpConnError::GetAuthInfo(a) => a.kind,
            HttpConnError::AuthError(a) => a.get_error_kind(),
            HttpConnError::WakeCompute(w) => w.kind,
            HttpConnError::TooManyConnectionAttempts(k) => *k,
        }
    }

    pub fn to_string_client(&self) -> (r: String)
        ensures
            r@ == self.client_message(),
    {
        match self {
            HttpConnError::ConnectionClosedAbruptly => {
                "pooled connection closed at inconsistent state".to_owned()
            },
            HttpConnError::PostgresConnectionError(p) => p.message.clone(),
            HttpConnError::LocalProxyConnectionError(p) => p.describe(),
            HttpConnError::JwtPayloadError(m) => m.clone(),
            HttpConnError::GetAuthInfo(c) => c.client_message.clone(),
            HttpConnError::AuthError(c) => c.to_string_client(),
            HttpConnError::WakeCompute(c) => c.client_message.clone(),
            HttpConnError::TooManyConnectionAttempts(_) => {
                "Failed to acquire permit to connect to the database. Too many database connection attempts are currently ongoing.".to_owned()
            },
        }
    }

    pub fn could_retry(&self) -> (r: bool)
        ensures
            r == self.retryable(),
    {
        match self {
            HttpConnError::PostgresConnectionError(p) => p.could_retry,
            HttpConnError::LocalProxyConnectionError(e) => e.could_retry(),
            HttpConnError::ConnectionClosedAbruptly => false,
            HttpConnError::JwtPayloadError(_) => false,
            HttpConnError::GetAuthInfo(_) => false,
            HttpConnError::AuthError(_) => false,
            HttpConnError::WakeCompute(_) => false,
            HttpConnError::TooManyConnectionAttempts(_) => false,
        }
    }

    pub fn should_retry_wake_compute(&self) -> (r: bool)
        ensures
            r == self.needs_wake(),
    {
        match self {
            HttpConnError::PostgresConnectionError(p) => p.should_retry_wake_compute,
            HttpConnError::ConnectionClosedAbruptly => true,
            HttpConnError::LocalProxyConnectionError(_) => true,
            HttpConnError::GetAuthInfo(_) => true,
            HttpConnError::JwtPayloadError(_) => false,
            HttpConnError::AuthError(_) => false,
            HttpConnError::WakeCompute(_) => false,
            // the cached node info was never checked
            HttpConnError::TooManyConnectionAttempts(_) => false,
        }
    }
}

} // verus!
