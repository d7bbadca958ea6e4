//! The client's side of the server connection: the commands the interface
//! gives, the events it receives, how they map to and from the wire payloads,
//! and the decisions of the connection loop.
use vstd::prelude::*;
use crate::protocol::{AppMessage, ClientPayload, ServerPayload, UserInfo};

verus! {

/// Events that the connection hands to the interface.
#[derive(Clone, Debug)]
pub enum ServerEvent {
    AuthOk(String),
    AuthErr(String),
    NewMessage(AppMessage),
    PeerKeys { target: String, ed_public: Vec<u8>, x25519_public: Vec<u8> },
    Disconnect,
    UserSearchResult { username: String, exists: bool },
    SearchResults(Vec<UserInfo>),
    ProfileReceived(UserInfo),
    ProfileUpdated,
}

/// Commands that the interface gives to the connection.
#[derive(Clone, Debug)]
pub enum ClientCommand {
    /// nickname, username, password, Ed25519 public key, X25519 public key
    Register(String, String, String, Vec<u8>, Vec<u8>),
    /// username, password, Ed25519 public key, X25519 public key
    Login(String, String, Vec<u8>, Vec<u8>),
    Send(AppMessage),
    FetchPeerKeys(String),
    UpdateServerAddress(String),
    SearchUser(String),
    SearchPrefix(String),
    ValidateSession(String),
    RequestProfile(String),
    UpdateProfile { bio: Option<String>, avatar_base64: Option<String> },
}

/// The wire payload that a command becomes. `UpdateServerAddress` has none:
/// the connection loop acts on it itself.
pub open spec fn payload_of(cmd: ClientCommand) -> ClientPayload
    recommends
        !(cmd is UpdateServerAddress),
{
    match cmd {
        ClientCommand::Register(n, u, p, ep, xp) => ClientPayload::Register {
            nickname: n,
            username: u,
            password: p,
            ed_public: ep,
            x25519_public: xp,
        },
        ClientCommand::Login(u, p, ep, xp) => ClientPayload::Login {
            username: u,
            password: p,
            ed_public: ep,
            x25519_public: xp,
        },
        ClientCommand::Send(msg) => ClientPayload::SendMessage { msg },
        ClientCommand::FetchPeerKeys(t) => ClientPayload::RequestKeys { target: t },
        ClientCommand::SearchUser(u) => ClientPayload::SearchUser { username: u },
        ClientCommand::SearchPrefix(p) => ClientPayload::SearchPrefix { prefix: p },
        ClientCommand::ValidateSession(s) => ClientPayload::ValidateSession { session_id: s },
        ClientCommand::RequestProfile(u) => ClientPayload::RequestProfile { username: u },
        ClientCommand::UpdateProfile { bio, avatar_base64 } => ClientPayload::UpdateProfile {
            bio,
            avatar_base64,
        },
        ClientCommand::UpdateServerAddress(_) => ClientPayload::RequestKeys { target: arbitrary() },
    }
}

/// The event that a server payload becomes.
pub open spec fn event_of(p: ServerPayload) -> ServerEvent {
    match p {
        ServerPayload::AuthOk { session_id } => ServerEvent::AuthOk(session_id),
        ServerPayload::AuthErr(reason) => ServerEvent::AuthErr(reason),
        ServerPayload::Forward { msg } => ServerEvent::NewMessage(msg),
        ServerPayload::PeerKeys { target, ed_public, x25519_public } => ServerEvent::PeerKeys {
            target,
            ed_public,
            x25519_public,
        },
        ServerPayload::UserSearchResult { username, exists } => ServerEvent::UserSearchResult {
            username,
            exists,
        },
        ServerPayload::SearchResults { matches } => ServerEvent::SearchResults(matches),
        ServerPayload::Profile { user } => ServerEvent::ProfileReceived(user),
        ServerPayload::ProfileUpdated => ServerEvent::ProfileUpdated,
    }
}

/// The wire payload of a command; the address change is not one.
pub fn command_payload(cmd: ClientCommand) -> (p: ClientPayload)
    requires
        !(cmd is UpdateServerAddress),
    ensures
        p == payload_of(cmd),
        cmd matches ClientCommand::Register(n, u, pw, ep, xp) ==> (p matches ClientPayload::Register {
            nickname,
            username,
            password,
            ed_public,
            x25519_public,
        } && nickname == n && username == u && password == pw && ed_public == ep && x25519_public == xp),
        cmd matches ClientCommand::Login(u, pw, ep, xp) ==> (p matches ClientPayload::Login {
            username,
            password,
            ed_public,
            x25519_public,
        } && username == u && password == pw && ed_public == ep && x25519_public == xp),
{
    match cmd {
        ClientCommand::Register(n, u, p, ep, xp) => ClientPayload::Register {
            nickname: n,
            username: u,
            password: p,
            ed_public: ep,
            x25519_public: xp,
        },
        ClientCommand::Login(u, p, ep, xp) => ClientPayload::Login {
            username: u,
            password: p,
            ed_public: ep,
            x25519_public: xp,
        },
        ClientCommand::Send(msg) => ClientPayload::SendMessage { msg },
        ClientCommand::FetchPeerKeys(t) => ClientPayload::RequestKeys { target: t },
        ClientCommand::SearchUser(u) => ClientPayload::SearchUser { username: u },
        ClientCommand::SearchPrefix(p) => ClientPayload::SearchPrefix { prefix: p },
        ClientCommand::ValidateSession(s) => ClientPayload::ValidateSession { session_id: s },
        ClientCommand::RequestProfile(u) => ClientPayload::RequestProfile { username: u },
        ClientCommand::UpdateProfile { bio, avatar_base64 } => ClientPayload::UpdateProfile {
            bio,
            avatar_base64,
        },
        ClientCommand::UpdateServerAddress(_) => vstd::pervasive::unreached(),
    }
}

/// The event of a payload that the server sent.
pub fn payload_event(p: ServerPayload) -> (e: ServerEvent)
    ensures
        e == event_of(p),
        p matches ServerPayload::PeerKeys { target: t, ed_public: ed, x25519_public: x } ==> (e matches ServerEvent::PeerKeys {
            target,
            ed_public,
            x25519_public,
        } && target == t && ed_public == ed && x25519_public == x),
{
    match p {
        ServerPayload::AuthOk { session_id } => ServerEvent::AuthOk(session_id),
        ServerPayload::AuthErr(reason) => ServerEvent::AuthErr(reason),
        ServerPayload::Forward { msg } => ServerEvent::NewMessage(msg),
        ServerPayload::PeerKeys { target, ed_public, x25519_public } => ServerEvent::PeerKeys {
            target,
            ed_public,
            x25519_public,
        },
        ServerPayload::UserSearchResult { username, exists } => ServerEvent::UserSearchResult {
            username,
            exists,
        },
        ServerPayload::SearchResults { matches } => ServerEvent::SearchResults(matches),
        ServerPayload::Profile { user } => ServerEvent::ProfileReceived(user),
        ServerPayload::ProfileUpdated => ServerEvent::ProfileUpdated,
    }
}

/// Where the connection loop stands.
#[derive(Clone, Copy, Debug, PartialEq, Eq, Structural)]
pub enum Phase {
    /// A connection attempt to `url` is under way.
    Connecting,
    /// The last attempt failed; the loop waits for the next command.
    Offline,
    /// Connected: commands go to the server.
    Online,
    /// The loop has ended.
    Stopped,
}

/// The connection loop's state: the address it connects to and its phase.
pub struct Link {
    pub url: String,
    pub phase: Phase,
}

/// What happened to the connection loop.
pub enum LinkEvent {
    /// The attempt to connect succeeded.
    Connected,
    /// The attempt to connect failed.
    ConnectFailed,
    /// The interface gave a command.
    Command(ClientCommand),
    /// The interface's command channel is closed.
    ChannelClosed,
    /// The server stream no longer takes what is handed to it.
    ForwardFailed,
}

/// What the connection loop does next.
pub enum LinkAction {
    /// Try to connect to the address.
    Connect(String),
    /// Start reading and writing the new connection, then wait for commands.
    StartSession,
    /// Tell the interface that the connection is down, then wait for a command.
    ReportDisconnect,
    /// Hand the payload to the server.
    Forward(ClientPayload),
    /// Close the current connection and connect to the address.
    Reconnect(String),
    /// Close what is open and end the loop.
    Shutdown,
    /// Nothing to do.
    Idle,
}

impl Link {
    /// A loop about to connect to `url`.
    pub fn new(url: String) -> (l: Link)
        ensures
            l.url == url,
            l.phase == Phase::Connecting,
    {
        Link { url, phase: Phase::Connecting }
    }

    /// The first action: connect to the address given at the start.
    pub fn start(&self) -> (a: LinkAction)
        ensures
            a == LinkAction::Connect(self.url),
    {
        LinkAction::Connect(self.url.clone())
    }

    /// One decision of the connection loop.
    pub fn step(&mut self, ev: LinkEvent) -> (a: LinkAction)
        ensures
            match (old(self).phase, ev) {
                (Phase::Connecting, LinkEvent::Connected) => final(self).phase == Phase::Online
                    && final(self).url == old(self).url && a == LinkAction::StartSession,
                (Phase::Connecting, LinkEvent::ConnectFailed) => final(self).phase == Phase::Offline
                    && final(self).url == old(self).url && a == LinkAction::ReportDisconnect,
                (Phase::Offline, LinkEvent::Command(ClientCommand::UpdateServerAddress(u))) =>
                    final(self).phase == Phase::Connecting && final(self).url == u && a
                    == LinkAction::Connect(u),
                (Phase::Offline, LinkEvent::Command(_)) => final(self).phase == Phase::Connecting
                    && final(self).url == old(self).url && a == LinkAction::Connect(old(self).url),
                (Phase::Online, LinkEvent::Command(ClientCommand::UpdateServerAddress(u))) =>
                    final(self).phase == Phase::Connecting && final(self).url == u && a
                    == LinkAction::Reconnect(u),
                (Phase::Online, LinkEvent::Command(c)) => final(self).phase == Phase::Online
                    && final(self).url == old(self).url && a == LinkAction::Forward(payload_of(c)),
                (Phase::Offline, LinkEvent::ChannelClosed) | (Phase::Online, LinkEvent::ChannelClosed)
                | (Phase::Online, LinkEvent::ForwardFailed) => final(self).phase == Phase::Stopped
                    && final(self).url == old(self).url && a == LinkAction::Shutdown,
                _ => final(self).phase == old(self).phase && final(self).url == old(self).url && a
                    == LinkAction::Idle,
            },
    {
        match (self.phase, ev) {
            (Phase::Connecting, LinkEvent::Connected) => {
                self.phase = Phase::Online;
                LinkAction::StartSession
            },
            (Phase::Connecting, LinkEvent::ConnectFailed) => {
                self.phase = Phase::Offline;
                LinkAction::ReportDisconnect
            },
            (Phase::Offline, LinkEvent::Command(cmd)) => {
                match cmd {
                    ClientCommand::UpdateServerAddress(u) => {
                        self.url = u.clone();
                        self.phase = Phase::Connecting;
                        LinkAction::Connect(u)
                    },
                    _ => {
                        self.phase = Phase::Connecting;
                        LinkAction::Connect(self.url.clone())
                    },
                }
            },
            (Phase::Online, LinkEvent::Command(cmd)) => {
                match cmd {
                    ClientCommand::UpdateServerAddress(u) => {
                        self.url = u.clone();
                        self.phase = Phase::Connecting;
                        LinkAction::Reconnect(u)
                    },
                    other => LinkAction::Forward(command_payload(other)),
                }
            },
            (Phase::Offline, LinkEvent::ChannelClosed) | (Phase::Online, LinkEvent::ChannelClosed) | (
                Phase::Online,
                LinkEvent::ForwardFailed,
            ) => {
                self.phase = Phase::Stopped;
                LinkAction::Shutdown
            },
            _ => LinkAction::Idle,
        }
    }
}

}
