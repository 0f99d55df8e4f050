use vstd::prelude::*;

use crate::compute::NodeInfo;
use crate::errors::AuthError;
use crate::ip::{check_peer_addr_is_in_list, peer_in_list, IpAddr, IpPattern};
use crate::pool::{ComputeUserInfo, ConnInfo};
use crate::text::push_str;

verus! {

/// What authentication leaves for the connect step.
#[derive(Debug)]
pub enum ComputeCredentialKeys {
    /// Keys derived by the password exchange.
    AuthKeys(Vec<u8>),
    /// The validated token payload.
    JwtPayload(Vec<u8>),
    Empty,
}

/// An authenticated identity.
#[derive(Debug)]
pub struct ComputeCredentials {
    pub info: ComputeUserInfo,
    pub keys: ComputeCredentialKeys,
}

/// A backend that is local to the proxy and its fixed node.
#[derive(Debug)]
pub struct LocalBackend {
    pub node_info: NodeInfo,
}

/// Where identities are checked.
#[derive(Debug)]
pub enum AuthBackend {
    /// The control plane, which also wakes compute nodes.
    ControlPlane,
    /// A fixed local node, with static token rules.
    Local(LocalBackend),
}

/// How the password exchange ended.
#[derive(Debug)]
pub enum ScramOutcome {
    Success(Vec<u8>),
    /// The reason is logged, never returned.
    Failure(String),
}

/// The allow-list check, when it is enforced.
pub fn admit_peer(ip_allowlist_check_enabled: bool, peer: &IpAddr, allowed_ips: &Vec<IpPattern>) -> (r:
    Result<(), AuthError>)
    ensures
        ip_allowlist_check_enabled && !peer_in_list(*peer, allowed_ips@) ==> r == Err::<
            (),
            AuthError,
        >(AuthError::IpAddressNotAllowed(*peer)),
        r is Ok <==> !(ip_allowlist_check_enabled && !peer_in_list(*peer, allowed_ips@)),
{
    if ip_allowlist_check_enabled && !check_peer_addr_is_in_list(peer, allowed_ips) {
        return Err(AuthError::IpAddressNotAllowed(*peer));
    }
    Ok(())
}

/// The endpoint's connection rate limit, given whether its limiter had a token.
pub fn admit_endpoint(endpoint_rate_ok: bool) -> (r: Result<(), AuthError>)
    ensures
        endpoint_rate_ok ==> r is Ok,
        !endpoint_rate_ok ==> r == Err::<(), AuthError>(AuthError::TooManyConnections),
{
    if endpoint_rate_ok {
        Ok(())
    } else {
        Err(AuthError::TooManyConnections)
    }
}

/// A role without a secret cannot log in; which part failed is not disclosed.
pub fn require_secret<S>(secret: Option<S>, user: &String) -> (r: Result<S, AuthError>)
    ensures
        secret matches Some(s) ==> r == Ok::<S, AuthError>(s),
        secret is None ==> r == Err::<S, AuthError>(AuthError::AuthFailed(*user)),
{
    match secret {
        Some(s) => Ok(s),
        None => Err(AuthError::AuthFailed(user.clone())),
    }
}

/// The per-endpoint limit on authentication attempts.
pub fn check_auth_attempts<S>(secret: S, attempts_ok: bool) -> (r: Result<S, AuthError>)
    ensures
        attempts_ok ==> r == Ok::<S, AuthError>(secret),
        !attempts_ok ==> r == Err::<S, AuthError>(AuthError::TooManyAuthAttempts),
{
    if attempts_ok {
        Ok(secret)
    } else {
        Err(AuthError::TooManyAuthAttempts)
    }
}

/// Turns the password exchange's outcome into credentials.
pub fn password_outcome(outcome: ScramOutcome, user_info: ComputeUserInfo) -> (r: Result<
    ComputeCredentials,
    AuthError,
>)
    ensures
        outcome matches ScramOutcome::Success(keys) ==> r == Ok::<ComputeCredentials, AuthError>(
            ComputeCredentials { info: user_info, keys: ComputeCredentialKeys::AuthKeys(keys) },
        ),
        outcome is Failure ==> r == Err::<ComputeCredentials, AuthError>(
            AuthError::AuthFailed(user_info.user),
        ),
{
    match outcome {
        ScramOutcome::Success(keys) => Ok(
            ComputeCredentials { info: user_info, keys: ComputeCredentialKeys::AuthKeys(keys) },
        ),
        ScramOutcome::Failure(_) => Err(AuthError::AuthFailed(user_info.user)),
    }
}

/// Turns a token check into credentials. The control plane's check yields no keys;
/// the local rules yield the keys that validation produced. A failed check's message
/// becomes the reason.
pub fn jwt_credentials(
    backend: &AuthBackend,
    user_info: &ComputeUserInfo,
    validation: Result<ComputeCredentialKeys, String>,
) -> (r: Result<ComputeCredentials, AuthError>)
    ensures
        validation matches Err(e) ==> r == Err::<ComputeCredentials, AuthError>(
            AuthError::AuthFailed(e),
        ),
        validation is Ok && backend is ControlPlane ==> r == Ok::<ComputeCredentials, AuthError>(
            ComputeCredentials { info: *user_info, keys: ComputeCredentialKeys::Empty },
        ),
        validation is Ok && backend is Local ==> r == Ok::<ComputeCredentials, AuthError>(
            ComputeCredentials { info: *user_info, keys: validation->Ok_0 },
        ),
{
    match validation {
        Err(e) => Err(AuthError::AuthFailed(e)),
        Ok(keys) => match backend {
            AuthBackend::ControlPlane => Ok(
                ComputeCredentials { info: user_info.duplicate(), keys: ComputeCredentialKeys::Empty },
            ),
            AuthBackend::Local(_) => Ok(ComputeCredentials { info: user_info.duplicate(), keys }),
        },
    }
}

/// The endpoint under which a local proxy is woken: the user's endpoint with
/// "-local-proxy" appended.
pub open spec fn local_proxy_endpoint(endpoint: Seq<char>) -> Seq<char> {
    endpoint + "-local-proxy"@
}

/// Credentials for reaching the local proxy that serves `conn_info`'s endpoint.
pub fn local_proxy_credentials(conn_info: &ConnInfo) -> (r: ComputeCredentials)
    ensures
        r.info.user == conn_info.user_info.user,
        r.info.options == conn_info.user_info.options,
        r.info.endpoint@ == local_proxy_endpoint(conn_info.user_info.endpoint@),
        r.keys is Empty,
{
    let mut endpoint = conn_info.user_info.endpoint.clone();
    push_str(&mut endpoint, "-local-proxy");
    ComputeCredentials {
        info: ComputeUserInfo {
            user: conn_info.user_info.user.clone(),
            endpoint,
            options: conn_info.user_info.options.clone(),
        },
        keys: ComputeCredentialKeys::Empty,
    }
}

} // verus!
