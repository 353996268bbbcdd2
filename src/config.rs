use crate::errors::{ClientError, MissingSetting};
use crate::ids::{uuid_text, uuid_text_of};
use crate::session::{Session, SessionState};
use crate::envelope::ChannelMessage;
use vstd::prelude::*;
use vstd::string::*;

verus! {

/// The client's settings. Dates are day numbers counted from 1 January of
/// year 1 (that day is 1); the hardware id is the 128 bits of a UUID.
#[derive(Clone, Debug)]
pub struct ClientConfiguration {
    pub hardware_id: Option<u128>,
    pub ingest_server: Option<String>,
    pub token: Option<String>,
    pub token_expires_at: Option<i32>,
}

/// The server used when none is configured.
pub open spec fn default_server() -> Seq<char> {
    "localhost:4000"@
}

/// The configured server, or the default one.
pub open spec fn server_or_default(c: ClientConfiguration) -> Seq<char> {
    match c.ingest_server {
        Some(s) => s@,
        None => default_server(),
    }
}

/// The address of the channel socket on `server`, authenticated by `token`.
pub open spec fn socket_url(server: Seq<char>, token: Seq<char>) -> Seq<char> {
    "ws://"@ + server + "/client/websocket?vsn=2.0.0&token="@ + token
}

/// The control topic of the client with hardware id `id`.
pub open spec fn client_topic_of(id: u128) -> Seq<char> {
    "client:"@ + uuid_text_of(id)
}

/// Whether the user must authenticate before the client can be used: when no
/// expiry is recorded, or when a token is present and its expiry has passed.
pub open spec fn needs_authentication_spec(c: ClientConfiguration, today: int) -> bool {
    match c.token_expires_at {
        None => true,
        Some(e) => today > e && c.token is Some,
    }
}

impl ClientConfiguration {
    /// Fill in what a loaded configuration may lack: the default server, and
    /// `fresh_id` as hardware id when none was assigned yet. The flag tells
    /// whether an id was assigned, so that the configuration must be written
    /// back.
    pub fn fill_defaults(self, fresh_id: u128) -> (r: (ClientConfiguration, bool))
        ensures
            r.0.ingest_server is Some,
            r.0.ingest_server->Some_0@ == server_or_default(self),
            r.0.hardware_id == Some(match self.hardware_id {
                Some(h) => h,
                None => fresh_id,
            }),
            r.1 == self.hardware_id is None,
            r.0.token == self.token,
            r.0.token_expires_at == self.token_expires_at,
    {
        let ingest_server = match self.ingest_server {
            Some(s) => s,
            None => String::from_str("localhost:4000"),
        };
        let (hardware_id, assigned) = match self.hardware_id {
            Some(h) => (h, false),
            None => (fresh_id, true),
        };
        (
            ClientConfiguration {
                hardware_id: Some(hardware_id),
                ingest_server: Some(ingest_server),
                token: self.token,
                token_expires_at: self.token_expires_at,
            },
            assigned,
        )
    }

    /// The configured server, or the default one.
    pub fn server(&self) -> (r: String)
        ensures
            r@ == server_or_default(*self),
    {
        match &self.ingest_server {
            Some(s) => s.clone(),
            None => String::from_str("localhost:4000"),
        }
    }

    /// Whether the user must authenticate first, on day `today`.
    pub fn needs_authentication(&self, today: i32) -> (r: bool)
        ensures
            r == needs_authentication_spec(*self, today as int),
    {
        match self.token_expires_at {
            None => true,
            Some(e) => today > e && self.token.is_some(),
        }
    }

    /// This configuration with a newly verified token, expiring on day `expires_at`.
    pub fn with_token(&self, token: String, expires_at: i32) -> (r: ClientConfiguration)
        ensures
            r.hardware_id == self.hardware_id,
            r.ingest_server == self.ingest_server,
            r.token == Some(token),
            r.token_expires_at == Some(expires_at),
    {
        ClientConfiguration {
            hardware_id: self.hardware_id,
            ingest_server: self.ingest_server.clone(),
            token: Some(token),
            token_expires_at: Some(expires_at),
        }
    }
}

/// The address of the channel socket on `server`, authenticated by `token`.
pub fn socket_address(server: &str, token: &str) -> (r: String)
    ensures
        r@ == socket_url(server@, token@),
{
    let mut out = String::from_str("ws://");
    out.append(server);
    out.append("/client/websocket?vsn=2.0.0&token=");
    out.append(token);
    out
}

/// The shared connectivity flag that the UI reads.
#[derive(Clone, Copy, Debug, PartialEq, Eq, Structural)]
pub struct Connected(pub bool);

/// A session ready to be run, and the address its transport must dial.
pub struct SessionStart {
    pub session: Session,
    pub url: String,
}

/// What `ConnectionSupervisor::start` returns for a configuration: it fails on
/// a missing token, then on a missing hardware id, and otherwise gives a fresh
/// session for the client's control topic and the socket address.
pub open spec fn start_result(c: ClientConfiguration, r: Result<SessionStart, ClientError>) -> bool {
    match c.token {
        None => r matches Err(ClientError::ConfigurationMissing(MissingSetting::Token)),
        Some(token) => match c.hardware_id {
            None => r matches Err(ClientError::ConfigurationMissing(MissingSetting::Identity)),
            Some(id) => match r {
                Ok(s) => {
                    &&& s.session.wf()
                    &&& s.session.state() == SessionState::Handshaking
                    &&& s.session.pending() == Seq::<ChannelMessage>::empty()
                    &&& s.session.trackers() == Seq::<Seq<char>>::empty()
                    &&& s.session.client_topic() == client_topic_of(id)
                    &&& s.url@ == socket_url(server_or_default(c), token@)
                },
                Err(_) => false,
            },
        },
    }
}

/// Starts sessions and owns, for writing, the connectivity flag. Retries are
/// the caller's decision: each attempt is one call of `start`.
pub struct ConnectionSupervisor {
    pub connected: Connected,
}

impl ConnectionSupervisor {
    /// A supervisor with no session running.
    pub fn new() -> (r: ConnectionSupervisor)
        ensures
            r.connected == Connected(false),
    {
        ConnectionSupervisor { connected: Connected(false) }
    }

    /// Prepare one connection attempt for `config`. Fails at once, without
    /// waiting and without touching the flag, when the token or the hardware
    /// id is missing.
    pub fn start(&self, config: &ClientConfiguration) -> (r: Result<SessionStart, ClientError>)
        ensures
            start_result(*config, r),
    {
        let token = match &config.token {
            None => return Err(ClientError::ConfigurationMissing(MissingSetting::Token)),
            Some(t) => t,
        };
        let id = match config.hardware_id {
            None => return Err(ClientError::ConfigurationMissing(MissingSetting::Identity)),
            Some(h) => h,
        };
        let mut topic = String::from_str("client:");
        let id_text = uuid_text(id);
        topic.append(id_text.as_str());
        let server = config.server();
        let url = socket_address(server.as_str(), token.as_str());
        Ok(SessionStart { session: Session::new(topic), url })
    }

    /// The transport of the running session is open.
    pub fn transport_opened(&mut self)
        ensures
            final(self).connected == Connected(true),
    {
        self.connected = Connected(true);
    }

    /// The session has ended, however it ended.
    pub fn session_ended(&mut self)
        ensures
            final(self).connected == Connected(false),
    {
        self.connected = Connected(false);
    }

    pub fn is_connected(&self) -> (r: bool)
        ensures
            r == self.connected.0,
    {
        self.connected.0
    }
}

} // verus!
