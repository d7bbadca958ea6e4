//! The data that travels between the client and the server: encrypted
//! messages, user profiles, message contents, errors, and the payloads of the
//! wire protocol.
use vstd::prelude::*;

verus! {

/// An end-to-end encrypted message. `id` holds the 128 bits of the
/// message's UUID.
#[derive(Clone, Debug)]
pub struct AppMessage {
    pub id: u128,
    pub from: String,
    pub to: String,
    pub timestamp: u64,
    pub ciphertext: Vec<u8>,
    pub nonce: Vec<u8>,
    pub signature: Vec<u8>,
    pub salt: Vec<u8>,
}

/// The value of an [`AppMessage`], with its byte strings as sequences.
pub struct AppMessageView {
    pub id: u128,
    pub from: Seq<char>,
    pub to: Seq<char>,
    pub timestamp: u64,
    pub ciphertext: Seq<u8>,
    pub nonce: Seq<u8>,
    pub signature: Seq<u8>,
    pub salt: Seq<u8>,
}

impl View for AppMessage {
    type V = AppMessageView;

    open spec fn view(&self) -> AppMessageView {
        AppMessageView {
            id: self.id,
            from: self.from@,
            to: self.to@,
            timestamp: self.timestamp,
            ciphertext: self.ciphertext@,
            nonce: self.nonce@,
            signature: self.signature@,
            salt: self.salt@,
        }
    }
}

pub fn copy_bytes(v: &Vec<u8>) -> (r: Vec<u8>)
    ensures
        r@ == v@,
{
    let r = v.clone();
    assert(r@ =~= v@);
    r
}

pub fn copy_opt_string(o: &Option<String>) -> (r: Option<String>)
    ensures
        r == *o,
{
    match o {
        Some(s) => Some(s.clone()),
        None => None,
    }
}

impl AppMessage {
    /// A copy of the message.
    pub fn copy(&self) -> (r: AppMessage)
        ensures
            r@ == self@,
    {
        AppMessage {
            id: self.id,
            from: self.from.clone(),
            to: self.to.clone(),
            timestamp: self.timestamp,
            ciphertext: copy_bytes(&self.ciphertext),
            nonce: copy_bytes(&self.nonce),
            signature: copy_bytes(&self.signature),
            salt: copy_bytes(&self.salt),
        }
    }
}

/// A user's public profile.
#[derive(Clone, Debug)]
pub struct UserInfo {
    pub username: String,
    pub nickname: String,
    pub bio: String,
    pub avatar_base64: Option<String>,
    pub last_seen: Option<u64>,
    pub server_domain: Option<String>,
}

impl UserInfo {
    /// A copy of the profile.
    pub fn copy(&self) -> (r: UserInfo)
        ensures
            r == *self,
    {
        UserInfo {
            username: self.username.clone(),
            nickname: self.nickname.clone(),
            bio: self.bio.clone(),
            avatar_base64: copy_opt_string(&self.avatar_base64),
            last_seen: self.last_seen,
            server_domain: copy_opt_string(&self.server_domain),
        }
    }
}

/// What an encrypted message carries once decrypted.
#[derive(Clone, Debug)]
pub enum MessageContent {
    Text(String),
    Image { mime_type: String, base64_data: String },
}

/// Errors of the client.
#[derive(Clone, Debug)]
pub enum AnonError {
    Db(String),
    Crypto(String),
}

/// Requests that the client sends to the server.
#[derive(Clone, Debug)]
pub enum ClientPayload {
    Register {
        nickname: String,
        username: String,
        password: String,
        ed_public: Vec<u8>,
        x25519_public: Vec<u8>,
    },
    Login { username: String, password: String, ed_public: Vec<u8>, x25519_public: Vec<u8> },
    SendMessage { msg: AppMessage },
    RequestKeys { target: String },
    SearchUser { username: String },
    SearchPrefix { prefix: String },
    ValidateSession { session_id: String },
    RequestProfile { username: String },
    UpdateProfile { bio: Option<String>, avatar_base64: Option<String> },
}

/// Messages that the server sends to the client.
#[derive(Clone, Debug)]
pub enum ServerPayload {
    AuthOk { session_id: String },
    AuthErr(String),
    Forward { msg: AppMessage },
    PeerKeys { target: String, ed_public: Vec<u8>, x25519_public: Vec<u8> },
    UserSearchResult { username: String, exists: bool },
    SearchResults { matches: Vec<UserInfo> },
    Profile { user: UserInfo },
    ProfileUpdated,
}

}
