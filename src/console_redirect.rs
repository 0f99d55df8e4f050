use vstd::prelude::*;

use crate::compute::{node_built_from, node_info_from_database_info, DatabaseInfo, NodeInfo};
use crate::credentials::ComputeCredentialKeys;
use crate::errors::{AuthError, WebAuthError};
use crate::ip::{check_peer_addr_is_in_list, peer_in_list, IpAddr};
use crate::messages::{
    connecting_notice, connecting_text, greeting_text, hello_message, BeMessage, BeMessageView,
};
use crate::session_id::is_session_id;
use crate::waiters::{registered, WaiterRegistry};

verus! {

/// Settings of the authentication step.
#[derive(Clone, Copy, Debug, PartialEq, Eq, Structural)]
pub struct AuthenticationConfig {
    /// How long to wait for the console's confirmation, in milliseconds.
    pub webauth_confirmation_timeout_ms: u64,
    pub ip_allowlist_check_enabled: bool,
}

/// Authenticates clients by sending them to the console to confirm the session.
pub struct ConsoleRedirectBackend {
    console_uri: String,
}

/// The node that a console-confirmed session connects to.
pub struct ConsoleRedirectNodeInfo(pub NodeInfo);

/// How the wait for the console's reply ended.
#[derive(Debug)]
pub enum WaitOutcome {
    Delivered(DatabaseInfo),
    /// The reply side went away.
    Cancelled,
    /// The confirmation timeout elapsed first.
    TimedOut,
}

#[derive(Clone, Copy, Debug, PartialEq, Eq, Structural)]
pub enum FlowPhase {
    /// Looking for a session id that the registry accepts.
    Registering,
    /// The greeting is out; waiting for the console.
    AwaitingReply,
    Finished,
}

/// One console-redirect authentication in progress.
pub struct ConsoleRedirectFlow {
    console_uri: String,
    config: AuthenticationConfig,
    peer: IpAddr,
    session_id: String,
    phase: FlowPhase,
    sent: Ghost<Seq<BeMessageView>>,
}

pub open spec fn message_views(s: Seq<BeMessage>) -> Seq<BeMessageView> {
    s.map_values(|m: BeMessage| m@)
}

/// The messages that greet the client once its session id is registered.
pub open spec fn greeting_messages(uri: Seq<char>, id: Seq<char>) -> Seq<BeMessageView> {
    seq![
        BeMessageView::AuthenticationOk,
        BeMessageView::ClientEncodingUtf8,
        BeMessageView::NoticeResponse(greeting_text(uri, id)),
    ]
}

/// Everything a client sees during a successful authentication.
pub open spec fn handshake_messages(uri: Seq<char>, id: Seq<char>) -> Seq<BeMessageView> {
    greeting_messages(uri, id).push(BeMessageView::NoticeResponse(connecting_text()))
}

/// The allow-list, when it is checked and present, refuses the peer.
pub open spec fn peer_refused(config: AuthenticationConfig, peer: IpAddr, db: DatabaseInfo) -> bool {
    config.ip_allowlist_check_enabled && db.allowed_ips is Some && !peer_in_list(
        peer,
        db.allowed_ips->Some_0@,
    )
}

impl ConsoleRedirectBackend {
    pub closed spec fn uri(&self) -> Seq<char> {
        self.console_uri@
    }

    pub fn new(console_uri: String) -> (r: ConsoleRedirectBackend)
        ensures
            r.uri() == console_uri@,
    {
        ConsoleRedirectBackend { console_uri }
    }

    /// Begins authenticating a client that connected from `peer`.
    pub fn authenticate(&self, config: AuthenticationConfig, peer: IpAddr) -> (r:
        ConsoleRedirectFlow)
        ensures
            r.wf(),
            r.phase() == FlowPhase::Registering,
            r.uri() == self.uri(),
            r.config() == config,
            r.peer() == peer,
            r.sent() == Seq::<BeMessageView>::empty(),
    {
        ConsoleRedirectFlow {
            console_uri: self.console_uri.clone(),
            config,
            peer,
            session_id: String::new(),
            phase: FlowPhase::Registering,
            sent: Ghost(Seq::empty()),
        }
    }
}

impl ConsoleRedirectNodeInfo {
    /// The node is known already: waking hands out a copy of it.
    pub fn wake_compute(&self) -> (r: NodeInfo)
        ensures
            r == self.0,
    {
        self.0.duplicate()
    }

    /// A console-confirmed session carries no keys to the backend.
    pub fn get_keys(&self) -> (r: ComputeCredentialKeys)
        ensures
            r is Empty,
    {
        ComputeCredentialKeys::Empty
    }
}

impl ConsoleRedirectFlow {
    pub closed spec fn uri(&self) -> Seq<char> {
        self.console_uri@
    }

    pub closed spec fn config(&self) -> AuthenticationConfig {
        self.config
    }

    pub closed spec fn peer(&self) -> IpAddr {
        self.peer
    }

    pub closed spec fn phase(&self) -> FlowPhase {
        self.phase
    }

    /// The registered session id, once there is one.
    pub closed spec fn session_id(&self) -> Seq<char> {
        self.session_id@
    }

    /// Every message written to the client so far, in order.
    pub closed spec fn sent(&self) -> Seq<BeMessageView> {
        self.sent@
    }

    pub closed spec fn wf(&self) -> bool {
        &&& self.phase == FlowPhase::Registering ==> self.sent@ == Seq::<BeMessageView>::empty()
        &&& self.phase == FlowPhase::AwaitingReply ==> {
            &&& is_session_id(self.session_id@)
            &&& self.sent@ == greeting_messages(self.console_uri@, self.session_id@)
        }
    }

    pub fn confirmation_timeout_ms(&self) -> (r: u64)
        ensures
            r == self.config().webauth_confirmation_timeout_ms,
    {
        self.config.webauth_confirmation_timeout_ms
    }

    /// Tries to park the session on `id`. On a collision nothing changes and the caller
    /// mints another id; otherwise the greeting comes back, to be written and flushed.
    pub fn on_session_id(&mut self, registry: &mut WaiterRegistry, id: String) -> (r: Option<
        Vec<BeMessage>,
    >)
        requires
            old(self).wf(),
            old(self).phase() == FlowPhase::Registering,
            old(registry).wf(),
            is_session_id(id@),
        ensures
            final(self).wf(),
            final(registry).wf(),
            final(self).uri() == old(self).uri(),
            final(self).config() == old(self).config(),
            final(self).peer() == old(self).peer(),
            r is None <==> old(registry).view().contains_key(id@),
            r is None ==> {
                &&& final(registry).view() == old(registry).view()
                &&& final(self).phase() == FlowPhase::Registering
                &&& final(self).sent() == old(self).sent()
            },
            r matches Some(msgs) ==> {
                &&& final(registry).view() == registered(old(registry).view(), id@)
                &&& final(self).phase() == FlowPhase::AwaitingReply
                &&& final(self).session_id() == id@
                &&& message_views(msgs@) == greeting_messages(old(self).uri(), id@)
                &&& final(self).sent() == old(self).sent() + message_views(msgs@)
            },
    {
        let id_copy = id.clone();
        match registry.register(id) {
            Err(_) => None,
            Ok(()) => {
                let greeting = hello_message(self.console_uri.as_str(), id_copy.as_str());
                let mut msgs: Vec<BeMessage> = Vec::new();
                msgs.push(BeMessage::AuthenticationOk);
                msgs.push(BeMessage::ClientEncodingUtf8);
                msgs.push(BeMessage::NoticeResponse(greeting));
                assert(message_views(msgs@) =~= greeting_messages(self.console_uri@, id_copy@));
                self.session_id = id_copy;
                self.phase = FlowPhase::AwaitingReply;
                self.sent = Ghost(self.sent@ + message_views(msgs@));
                assert(self.sent@ =~= greeting_messages(self.console_uri@, self.session_id@));
                Some(msgs)
            },
        }
    }

    /// The client stream broke while the greeting was written.
    pub fn on_client_write_failed(&mut self) -> (r: AuthError)
        requires
            old(self).wf(),
        ensures
            final(self).wf(),
            final(self).phase() == FlowPhase::Finished,
            final(self).sent() == old(self).sent(),
            r == AuthError::WebAuth(WebAuthError::Io),
    {
        self.phase = FlowPhase::Finished;
        AuthError::WebAuth(WebAuthError::Io)
    }

    /// Decides on the console's reply. On success the last notice comes back, to be
    /// written without a flush, with the node to connect to.
    pub fn on_reply(&mut self, outcome: WaitOutcome) -> (r: Result<
        (BeMessage, ConsoleRedirectNodeInfo),
        AuthError,
    >)
        requires
            old(self).wf(),
            old(self).phase() == FlowPhase::AwaitingReply,
        ensures
            final(self).wf(),
            final(self).phase() == FlowPhase::Finished,
            final(self).session_id() == old(self).session_id(),
            final(self).uri() == old(self).uri(),
            outcome is TimedOut ==> r == Err::<(BeMessage, ConsoleRedirectNodeInfo), AuthError>(
                AuthError::ConfirmationTimeout(old(self).config().webauth_confirmation_timeout_ms),
            ),
            outcome is Cancelled ==> r == Err::<(BeMessage, ConsoleRedirectNodeInfo), AuthError>(
                AuthError::WebAuth(WebAuthError::WaiterWait),
            ),
            outcome matches WaitOutcome::Delivered(db) ==> {
                if peer_refused(old(self).config(), old(self).peer(), db) {
                    r == Err::<(BeMessage, ConsoleRedirectNodeInfo), AuthError>(
                        AuthError::IpAddressNotAllowed(old(self).peer()),
                    )
                } else {
                    r matches Ok((msg, node)) && msg@ == BeMessageView::NoticeResponse(
                        connecting_text(),
                    ) && node_built_from(node.0, db)
                }
            },
            r is Err ==> final(self).sent() == old(self).sent(),
            r matches Ok((msg, _)) ==> final(self).sent() == old(self).sent().push(msg@),
            r is Ok ==> is_session_id(final(self).session_id()),
            r is Ok ==> final(self).sent() == handshake_messages(
                old(self).uri(),
                old(self).session_id(),
            ),
    {
        self.phase = FlowPhase::Finished;
        match outcome {
            WaitOutcome::TimedOut => Err(
                AuthError::ConfirmationTimeout(self.config.webauth_confirmation_timeout_ms),
            ),
            WaitOutcome::Cancelled => Err(AuthError::WebAuth(WebAuthError::WaiterWait)),
            WaitOutcome::Delivered(db) => {
                if self.config.ip_allowlist_check_enabled {
                    match &db.allowed_ips {
                        Some(list) => {
                            if !check_peer_addr_is_in_list(&self.peer, list) {
                                return Err(AuthError::IpAddressNotAllowed(self.peer));
                            }
                        },
                        None => {},
                    }
                }
                let msg = connecting_notice();
                self.sent = Ghost(self.sent@.push(msg@));
                let node = node_info_from_database_info(db);
                Ok((msg, ConsoleRedirectNodeInfo(node)))
            },
        }
    }
}

/// The greeting holds the redirect URI immediately followed by the session id.
pub proof fn lemma_greeting_shows_session(uri: Seq<char>, id: Seq<char>)
    requires
        is_session_id(id),
    ensures
        ({
            let g = greeting_text(uri, id);
            let start: int = "Welcome to Neon!\nAuthenticate by visiting:\n    "@.len() as int;
            let end: int = start + uri.len();
            &&& g.subrange(start, end) == uri
            &&& g.subrange(end, end + 16) == id
        }),
{
    let prefix = "Welcome to Neon!\nAuthenticate by visiting:\n    "@;
    let g = greeting_text(uri, id);
    let start: int = prefix.len() as int;
    let end: int = start + uri.len();
    assert(g == prefix + uri + id + "\n\n"@);
    assert(g.subrange(start, end) =~= uri);
    assert(g.subrange(end, end + 16) =~= id);
}

/// A successful authentication shows the client exactly four messages: the
/// authentication result, the client encoding, the greeting (in which the redirect URI
/// is immediately followed by the sixteen-digit session id), then the connecting notice.
pub proof fn lemma_handshake_shape(uri: Seq<char>, id: Seq<char>)
    requires
        is_session_id(id),
    ensures
        handshake_messages(uri, id).len() == 4,
        handshake_messages(uri, id)[0] == BeMessageView::AuthenticationOk,
        handshake_messages(uri, id)[1] == BeMessageView::ClientEncodingUtf8,
        handshake_messages(uri, id)[2] == BeMessageView::NoticeResponse(greeting_text(uri, id)),
        handshake_messages(uri, id)[3] == BeMessageView::NoticeResponse(connecting_text()),
        ({
            let g = greeting_text(uri, id);
            let start: int = "Welcome to Neon!\nAuthenticate by visiting:\n    "@.len() as int;
            let end: int = start + uri.len();
            &&& g.subrange(start, end) == uri
            &&& g.subrange(end, end + 16) == id
        }),
{
    lemma_greeting_shows_session(uri, id);
}

} // verus!
