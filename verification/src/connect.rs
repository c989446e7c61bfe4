//! Establishing a session: the parameters of a connection and the order in
//! which transport, handshake and authentication are attempted.
//!
//! The network belongs to the caller. [`ConnectFlow`] says what to do next
//! and takes what happened: the caller performs the pending action, reports
//! the event, and repeats until the flow has an outcome.

use crate::config::{Config, ConfigView, ServerDefinition, ServerDefinitionView};
use crate::error::{ConnectError, ConnectErrorView};
use crate::platform::{expand_home, home_directory, tilde_expanded};
use crate::text::{append_decimal, decimal, opt_text};
use vstd::prelude::*;

verus! {

/// Everything needed to reach and authenticate at one target.
#[derive(Debug, PartialEq, Eq)]
pub struct ConnectionParameters {
    pub user: String,
    pub host: String,
    pub port: u32,
    /// Private key to try before the agent.
    pub key_path: Option<String>,
}

/// Mathematical model of [`ConnectionParameters`].
pub struct ConnectionParametersView {
    pub user: Seq<char>,
    pub host: Seq<char>,
    pub port: u32,
    pub key_path: Option<Seq<char>>,
}

impl View for ConnectionParameters {
    type V = ConnectionParametersView;

    open spec fn view(&self) -> ConnectionParametersView {
        ConnectionParametersView {
            user: self.user@,
            host: self.host@,
            port: self.port,
            key_path: opt_text(self.key_path),
        }
    }
}

/// The parameters for `server` under the defaults of `config`: the key of
/// the target if it has one, else the global key, with a leading tilde
/// expanded to `home`.
pub open spec fn resolved_parameters(
    server: ServerDefinitionView,
    config: ConfigView,
    home: Option<Seq<char>>,
) -> ConnectionParametersView {
    let key = if server.ssh_key is Some {
        server.ssh_key
    } else {
        config.ssh.key_path
    };
    ConnectionParametersView {
        user: server.user,
        host: server.host,
        port: server.port,
        key_path: match key {
            Some(path) => Some(tilde_expanded(path, home)),
            None => None,
        },
    }
}

/// The address of the transport: host, a colon, and the port.
pub open spec fn address_text(host: Seq<char>, port: u32) -> Seq<char> {
    host + ":"@ + decimal(port as nat)
}

impl ConnectionParameters {
    /// Merges a target with the global defaults, for a user whose home
    /// directory is `home`.
    pub fn resolve_in(server: &ServerDefinition, config: &Config, home: &Option<String>) -> (r:
        ConnectionParameters)
        ensures
            r@ == resolved_parameters(server@, config@, opt_text(*home)),
    {
        let key: &Option<String> = if server.ssh_key.is_some() {
            &server.ssh_key
        } else {
            &config.ssh.key_path
        };
        let key_path = match key {
            Some(path) => Some(expand_home(path.as_str(), home)),
            None => None,
        };
        ConnectionParameters {
            user: server.user.clone(),
            host: server.host.clone(),
            port: server.port,
            key_path,
        }
    }

    /// Merges a target with the global defaults, for the current user.
    pub fn resolve(server: &ServerDefinition, config: &Config) -> (r: ConnectionParameters)
        ensures
            exists|home: Option<Seq<char>>| r@ == resolved_parameters(server@, config@, home),
    {
        let home = home_directory();
        let r = Self::resolve_in(server, config, &home);
        assert(r@ == resolved_parameters(server@, config@, opt_text(home)));
        r
    }

    /// The address of the transport.
    pub fn address(&self) -> (r: String)
        ensures
            r@ == address_text(self@.host, self@.port),
    {
        let mut r = self.host.clone();
        r.append(":");
        append_decimal(&mut r, self.port as u64);
        r
    }
}

/// Where a connection attempt stands.
#[derive(Clone, Copy, Debug, PartialEq, Eq, Structural)]
pub enum ConnectState {
    /// The transport is being established.
    AwaitTransport,
    /// The protocol handshake is under way.
    AwaitHandshake,
    /// The private key file is being looked for.
    AwaitKeyCheck,
    /// Authentication with the private key is under way.
    AwaitKeyAuth,
    /// Authentication through the agent is under way.
    AwaitAgentAuth,
    /// The session is established and authenticated.
    Connected,
    /// The transport was not established in time.
    TimedOut,
    /// The transport could not be established.
    Refused,
    /// The handshake failed.
    HandshakeFailed,
    /// No method authenticated the user.
    AuthenticationFailed,
}

/// What happened to the pending action of a connection attempt. A failure
/// carries what the system, the peer or the agent said of it.
#[derive(Debug, PartialEq, Eq)]
pub enum ConnectEvent {
    TransportOpened,
    TransportTimedOut,
    TransportFailed(String),
    HandshakeSucceeded,
    HandshakeFailed(String),
    KeyFilePresent,
    KeyFileMissing,
    Authenticated,
    NotAuthenticated(String),
}

/// Mathematical model of a [`ConnectEvent`].
pub enum ConnectEventView {
    TransportOpened,
    TransportTimedOut,
    TransportFailed(Seq<char>),
    HandshakeSucceeded,
    HandshakeFailed(Seq<char>),
    KeyFilePresent,
    KeyFileMissing,
    Authenticated,
    NotAuthenticated(Seq<char>),
}

impl View for ConnectEvent {
    type V = ConnectEventView;

    open spec fn view(&self) -> ConnectEventView {
        match self {
            ConnectEvent::TransportOpened => ConnectEventView::TransportOpened,
            ConnectEvent::TransportTimedOut => ConnectEventView::TransportTimedOut,
            ConnectEvent::TransportFailed(detail) => ConnectEventView::TransportFailed(detail@),
            ConnectEvent::HandshakeSucceeded => ConnectEventView::HandshakeSucceeded,
            ConnectEvent::HandshakeFailed(detail) => ConnectEventView::HandshakeFailed(detail@),
            ConnectEvent::KeyFilePresent => ConnectEventView::KeyFilePresent,
            ConnectEvent::KeyFileMissing => ConnectEventView::KeyFileMissing,
            ConnectEvent::Authenticated => ConnectEventView::Authenticated,
            ConnectEvent::NotAuthenticated(detail) => ConnectEventView::NotAuthenticated(detail@),
        }
    }
}

/// What the caller is to do next.
#[derive(Debug, PartialEq, Eq)]
pub enum ConnectAction {
    /// Establish the transport to `address` within `timeout_secs` seconds.
    OpenTransport { address: String, timeout_secs: u64 },
    /// Perform the protocol handshake.
    Handshake,
    /// Find out whether the private key file exists.
    CheckKeyFile { path: String },
    /// Authenticate `user` with the private key at `path`.
    AuthenticateWithKey { user: String, path: String },
    /// Authenticate `user` through the agent.
    AuthenticateWithAgent { user: String },
}

/// Mathematical model of a [`ConnectAction`].
pub enum ConnectActionView {
    OpenTransport { address: Seq<char>, timeout_secs: u64 },
    Handshake,
    CheckKeyFile { path: Seq<char> },
    AuthenticateWithKey { user: Seq<char>, path: Seq<char> },
    AuthenticateWithAgent { user: Seq<char> },
}

impl View for ConnectAction {
    type V = ConnectActionView;

    open spec fn view(&self) -> ConnectActionView {
        match self {
            ConnectAction::OpenTransport { address, timeout_secs } => {
                ConnectActionView::OpenTransport { address: address@, timeout_secs: *timeout_secs }
            },
            ConnectAction::Handshake => ConnectActionView::Handshake,
            ConnectAction::CheckKeyFile { path } => ConnectActionView::CheckKeyFile { path: path@ },
            ConnectAction::AuthenticateWithKey { user, path } => {
                ConnectActionView::AuthenticateWithKey { user: user@, path: path@ }
            },
            ConnectAction::AuthenticateWithAgent { user } => {
                ConnectActionView::AuthenticateWithAgent { user: user@ }
            },
        }
    }
}

/// The state after `event`, for a target with or without a private key.
///
/// The transport comes first, then the handshake. Authentication tries the
/// private key only if one is configured and its file exists, then the
/// agent, and stops at the first success. A missing key file is no failure.
/// An event that does not answer the pending action changes nothing, and
/// nothing changes once the attempt has an outcome.
pub open spec fn connect_step(has_key: bool, state: ConnectState, event: ConnectEventView)
    -> ConnectState {
    match (state, event) {
        (ConnectState::AwaitTransport, ConnectEventView::TransportOpened) => {
            ConnectState::AwaitHandshake
        },
        (ConnectState::AwaitTransport, ConnectEventView::TransportTimedOut) => {
            ConnectState::TimedOut
        },
        (ConnectState::AwaitTransport, ConnectEventView::TransportFailed(_)) => {
            ConnectState::Refused
        },
        (ConnectState::AwaitHandshake, ConnectEventView::HandshakeSucceeded) => if has_key {
            ConnectState::AwaitKeyCheck
        } else {
            ConnectState::AwaitAgentAuth
        },
        (ConnectState::AwaitHandshake, ConnectEventView::HandshakeFailed(_)) => {
            ConnectState::HandshakeFailed
        },
        (ConnectState::AwaitKeyCheck, ConnectEventView::KeyFilePresent) => {
            ConnectState::AwaitKeyAuth
        },
        (ConnectState::AwaitKeyCheck, ConnectEventView::KeyFileMissing) => {
            ConnectState::AwaitAgentAuth
        },
        (ConnectState::AwaitKeyAuth, ConnectEventView::Authenticated) => ConnectState::Connected,
        (ConnectState::AwaitKeyAuth, ConnectEventView::NotAuthenticated(_)) => {
            ConnectState::AwaitAgentAuth
        },
        (ConnectState::AwaitAgentAuth, ConnectEventView::Authenticated) => ConnectState::Connected,
        (ConnectState::AwaitAgentAuth, ConnectEventView::NotAuthenticated(_)) => {
            ConnectState::AuthenticationFailed
        },
        _ => state,
    }
}

/// What is known of the last failure after `event`: the text of a failure
/// that answers the pending action, else what was known before.
pub open spec fn connect_detail(state: ConnectState, detail: Seq<char>, event: ConnectEventView)
    -> Seq<char> {
    match (state, event) {
        (ConnectState::AwaitTransport, ConnectEventView::TransportFailed(said)) => said,
        (ConnectState::AwaitHandshake, ConnectEventView::HandshakeFailed(said)) => said,
        (ConnectState::AwaitKeyAuth, ConnectEventView::NotAuthenticated(said)) => said,
        (ConnectState::AwaitAgentAuth, ConnectEventView::NotAuthenticated(said)) => said,
        _ => detail,
    }
}

/// Whether the attempt has an outcome.
pub open spec fn is_final(state: ConnectState) -> bool {
    state is Connected || state is TimedOut || state is Refused || state is HandshakeFailed
        || state is AuthenticationFailed
}

/// The outcome of an attempt that has one. A failure carries what was
/// said of it.
pub open spec fn connect_outcome(
    p: ConnectionParametersView,
    state: ConnectState,
    detail: Seq<char>,
) -> Option<Result<(), ConnectErrorView>> {
    match state {
        ConnectState::Connected => Some(Ok(())),
        ConnectState::TimedOut => Some(Err(ConnectErrorView::ConnectTimeout)),
        ConnectState::Refused => Some(Err(ConnectErrorView::ConnectionRefused { detail: detail })),
        ConnectState::HandshakeFailed => Some(
            Err(ConnectErrorView::HandshakeFailed { detail: detail }),
        ),
        ConnectState::AuthenticationFailed => Some(
            Err(
                ConnectErrorView::AuthenticationFailed {
                    user: p.user,
                    host: p.host,
                    detail: detail,
                },
            ),
        ),
        _ => None,
    }
}

/// The action that a state asks for; none once the attempt has an outcome.
pub open spec fn connect_action(p: ConnectionParametersView, timeout_secs: u64, state: ConnectState)
    -> Option<ConnectActionView> {
    match state {
        ConnectState::AwaitTransport => Some(
            ConnectActionView::OpenTransport {
                address: address_text(p.host, p.port),
                timeout_secs: timeout_secs,
            },
        ),
        ConnectState::AwaitHandshake => Some(ConnectActionView::Handshake),
        ConnectState::AwaitKeyCheck => Some(ConnectActionView::CheckKeyFile { path: p.key_path->0 }),
        ConnectState::AwaitKeyAuth => Some(
            ConnectActionView::AuthenticateWithKey { user: p.user, path: p.key_path->0 },
        ),
        ConnectState::AwaitAgentAuth => Some(ConnectActionView::AuthenticateWithAgent { user: p.user }),
        _ => None,
    }
}

/// The state after a sequence of events.
pub open spec fn connect_run(has_key: bool, state: ConnectState, events: Seq<ConnectEventView>)
    -> ConnectState
    decreases events.len(),
{
    if events.len() == 0 {
        state
    } else {
        connect_run(has_key, connect_step(has_key, state, events[0]), events.drop_first())
    }
}

/// One connection attempt.
#[derive(Debug, PartialEq, Eq)]
pub struct ConnectFlow {
    pub params: ConnectionParameters,
    /// Seconds allowed for establishing the transport.
    pub connect_timeout: u64,
    pub state: ConnectState,
    /// What was said of the last step that failed; empty if none did.
    pub detail: String,
}

impl ConnectFlow {
    /// Whether the flow is in a state that its parameters allow: the key
    /// is only looked for, or used, where one is configured.
    pub open spec fn wf(&self) -> bool {
        (self.state is AwaitKeyCheck || self.state is AwaitKeyAuth) ==> self.params.key_path
            is Some
    }

    /// A new attempt, which begins with the transport.
    pub fn start(params: ConnectionParameters, connect_timeout: u64) -> (r: ConnectFlow)
        ensures
            r.params == params,
            r.connect_timeout == connect_timeout,
            r.state == ConnectState::AwaitTransport,
            r.detail@.len() == 0,
            r.wf(),
    {
        ConnectFlow {
            params,
            connect_timeout,
            state: ConnectState::AwaitTransport,
            detail: String::new(),
        }
    }

    /// What the caller is to do next; nothing once the attempt has an
    /// outcome.
    pub fn pending(&self) -> (r: Option<ConnectAction>)
        requires
            self.wf(),
        ensures
            match r {
                Some(action) => connect_action(self.params@, self.connect_timeout, self.state)
                    == Some(action@),
                None => connect_action(self.params@, self.connect_timeout, self.state) is None,
            },
            r is None <==> is_final(self.state),
    {
        match self.state {
            ConnectState::AwaitTransport => Some(
                ConnectAction::OpenTransport {
                    address: self.params.address(),
                    timeout_secs: self.connect_timeout,
                },
            ),
            ConnectState::AwaitHandshake => Some(ConnectAction::Handshake),
            ConnectState::AwaitKeyCheck => match &self.params.key_path {
                Some(path) => Some(ConnectAction::CheckKeyFile { path: path.clone() }),
                None => None,
            },
            ConnectState::AwaitKeyAuth => match &self.params.key_path {
                Some(path) => Some(
                    ConnectAction::AuthenticateWithKey {
                        user: self.params.user.clone(),
                        path: path.clone(),
                    },
                ),
                None => None,
            },
            ConnectState::AwaitAgentAuth => Some(
                ConnectAction::AuthenticateWithAgent { user: self.params.user.clone() },
            ),
            _ => None,
        }
    }

    /// Takes what happened to the pending action.
    pub fn advance(&mut self, event: ConnectEvent)
        requires
            old(self).wf(),
        ensures
            final(self).wf(),
            final(self).params == old(self).params,
            final(self).connect_timeout == old(self).connect_timeout,
            final(self).state == connect_step(
                old(self).params.key_path is Some,
                old(self).state,
                event@,
            ),
            final(self).detail@ == connect_detail(old(self).state, old(self).detail@, event@),
    {
        let has_key = self.params.key_path.is_some();
        match (self.state, event) {
            (ConnectState::AwaitTransport, ConnectEvent::TransportOpened) => {
                self.state = ConnectState::AwaitHandshake;
            },
            (ConnectState::AwaitTransport, ConnectEvent::TransportTimedOut) => {
                self.state = ConnectState::TimedOut;
            },
            (ConnectState::AwaitTransport, ConnectEvent::TransportFailed(said)) => {
                self.state = ConnectState::Refused;
                self.detail = said;
            },
            (ConnectState::AwaitHandshake, ConnectEvent::HandshakeSucceeded) => {
                self.state = if has_key {
                    ConnectState::AwaitKeyCheck
                } else {
                    ConnectState::AwaitAgentAuth
                };
            },
            (ConnectState::AwaitHandshake, ConnectEvent::HandshakeFailed(said)) => {
                self.state = ConnectState::HandshakeFailed;
                self.detail = said;
            },
            (ConnectState::AwaitKeyCheck, ConnectEvent::KeyFilePresent) => {
                self.state = ConnectState::AwaitKeyAuth;
            },
            (ConnectState::AwaitKeyCheck, ConnectEvent::KeyFileMissing) => {
                self.state = ConnectState::AwaitAgentAuth;
            },
            (ConnectState::AwaitKeyAuth, ConnectEvent::Authenticated) => {
                self.state = ConnectState::Connected;
            },
            (ConnectState::AwaitKeyAuth, ConnectEvent::NotAuthenticated(said)) => {
                self.state = ConnectState::AwaitAgentAuth;
                self.detail = said;
            },
            (ConnectState::AwaitAgentAuth, ConnectEvent::Authenticated) => {
                self.state = ConnectState::Connected;
            },
            (ConnectState::AwaitAgentAuth, ConnectEvent::NotAuthenticated(said)) => {
                self.state = ConnectState::AuthenticationFailed;
                self.detail = said;
            },
            _ => {},
        }
    }

    /// How the attempt ended, once it has ended.
    pub fn outcome(&self) -> (r: Option<Result<(), ConnectError>>)
        ensures
            match r {
                Some(Ok(())) => connect_outcome(self.params@, self.state, self.detail@) == Some(
                    Ok::<(), ConnectErrorView>(()),
                ),
                Some(Err(e)) => connect_outcome(self.params@, self.state, self.detail@) == Some(
                    Err::<(), ConnectErrorView>(e@),
                ),
                None => connect_outcome(self.params@, self.state, self.detail@) is None,
            },
            r is Some <==> is_final(self.state),
    {
        match self.state {
            ConnectState::Connected => Some(Ok(())),
            ConnectState::TimedOut => Some(Err(ConnectError::ConnectTimeout)),
            ConnectState::Refused => Some(
                Err(ConnectError::ConnectionRefused { detail: self.detail.clone() }),
            ),
            ConnectState::HandshakeFailed => Some(
                Err(ConnectError::HandshakeFailed { detail: self.detail.clone() }),
            ),
            ConnectState::AuthenticationFailed => Some(
                Err(
                    ConnectError::AuthenticationFailed {
                        user: self.params.user.clone(),
                        host: self.params.host.clone(),
                        detail: self.detail.clone(),
                    },
                ),
            ),
            _ => None,
        }
    }
}

/// An attempt that has an outcome keeps it, whatever is reported later.
pub proof fn lemma_outcome_is_final(
    has_key: bool,
    state: ConnectState,
    events: Seq<ConnectEventView>,
)
    requires
        is_final(state),
    ensures
        connect_run(has_key, state, events) == state,
    decreases events.len(),
{
    if events.len() > 0 {
        lemma_outcome_is_final(has_key, state, events.drop_first());
    }
}

/// A key file that does not exist is no failure: the attempt goes on with
/// the agent, and the agent alone decides it.
pub proof fn lemma_missing_key_falls_back(p: ConnectionParametersView, timeout_secs: u64)
    requires
        p.key_path is Some,
    ensures
        connect_step(true, ConnectState::AwaitKeyCheck, ConnectEventView::KeyFileMissing)
            == ConnectState::AwaitAgentAuth,
        connect_action(p, timeout_secs, ConnectState::AwaitAgentAuth) == Some(
            ConnectActionView::AuthenticateWithAgent { user: p.user },
        ),
        connect_run(
            true,
            ConnectState::AwaitKeyCheck,
            seq![ConnectEventView::KeyFileMissing, ConnectEventView::Authenticated],
        ) == ConnectState::Connected,
{
    let events = seq![ConnectEventView::KeyFileMissing, ConnectEventView::Authenticated];
    assert(events.drop_first() =~= seq![ConnectEventView::Authenticated]);
    assert(events.drop_first().drop_first() =~= Seq::<ConnectEventView>::empty());
    reveal_with_fuel(connect_run, 3);
}

/// The session is established only after an authentication succeeded:
/// one step leads to `Connected` only from an authentication state, on
/// the event `Authenticated`.
pub proof fn lemma_connected_means_authenticated(
    has_key: bool,
    state: ConnectState,
    event: ConnectEventView,
)
    requires
        !(state is Connected),
        connect_step(has_key, state, event) is Connected,
    ensures
        state is AwaitKeyAuth || state is AwaitAgentAuth,
        event is Authenticated,
{
}

} // verus!
