//! The client's domain state: the screen shown, the session, the local keys,
//! the chat list, the message history and the caches of what is known of
//! other users.
use vstd::prelude::*;
use crate::network::ClientCommand;
use crate::protocol::{AnonError, AppMessage, AppMessageView, UserInfo, copy_bytes, copy_opt_string};
use crate::str_map::StrMap;
use crate::text::{concat3, join_at, seq_lt, text_less, lemma_seq_lt_total, lemma_seq_lt_transitive,
    lemma_seq_lt_irreflexive};

verus! {

/// The field of the sign-in form that has the focus.
#[derive(Clone, Copy, Debug, PartialEq, Eq, Structural)]
pub enum FocusedField {
    Username,
    Password,
}

/// The screen that the interface shows.
#[derive(Clone, Debug)]
pub enum Screen {
    MainMenu { selection: usize },
    AuthForm {
        is_register: bool,
        username: String,
        nickname: String,
        password: String,
        focused: FocusedField,
    },
    ChatList,
    NewChat { input: String },
    ChatView { target: String, input: String },
    UserProfile { username: String },
    EditProfile,
}

/// The public keys of another user.
#[derive(Clone, Debug)]
pub struct PeerKeys {
    pub ed_public: Vec<u8>,
    pub x25519_public: Vec<u8>,
}

/// The value of [`PeerKeys`].
pub struct PeerKeysView {
    pub ed_public: Seq<u8>,
    pub x25519_public: Seq<u8>,
}

impl DeepView for PeerKeys {
    type V = PeerKeysView;

    open spec fn deep_view(&self) -> PeerKeysView {
        PeerKeysView { ed_public: self.ed_public@, x25519_public: self.x25519_public@ }
    }
}

/// The text of each string of a sequence.
pub open spec fn names(v: Seq<String>) -> Seq<Seq<char>> {
    v.map_values(|s: String| s@)
}

/// Strictly increasing, hence without repetition.
pub open spec fn sorted_names(v: Seq<String>) -> bool {
    forall|i: int, j: int| 0 <= i < j < v.len() ==> seq_lt(#[trigger] v[i]@, #[trigger] v[j]@)
}

/// Whether some string of `v` has the text `x`.
pub open spec fn has_name(v: Seq<String>, x: Seq<char>) -> bool {
    exists|i: int| 0 <= i < v.len() && #[trigger] v[i]@ == x
}

/// The views of a list of messages.
pub open spec fn message_views(v: Seq<AppMessage>) -> Seq<AppMessageView> {
    v.map_values(|m: AppMessage| m@)
}

/// Adds `name` to the sorted list `v` unless it is there already.
pub fn insert_sorted(v: &mut Vec<String>, name: String)
    requires
        sorted_names(old(v)@),
    ensures
        sorted_names(final(v)@),
        forall|x: Seq<char>| has_name(final(v)@, x) <==> (has_name(old(v)@, x) || x == name@),
{
    let mut i: usize = 0;
    while i < v.len() && text_less(v[i].as_str(), name.as_str())
        invariant
            i <= v.len(),
            v@ == old(v)@,
            sorted_names(v@),
            forall|k: int| 0 <= k < i ==> seq_lt(#[trigger] v@[k]@, name@),
        decreases v.len() - i,
    {
        i = i + 1;
    }
    if i < v.len() && v[i] == name {
        assert(v@[i as int]@ == name@);
        assert(has_name(old(v)@, name@));
        assert forall|x: Seq<char>| has_name(v@, x) <==> (has_name(old(v)@, x) || x == name@) by {}
        return;
    }
    let ghost old_v = v@;
    let ghost nm = name@;
    assert(old_v == old(v)@);
    proof {
        if i < v.len() {
            lemma_seq_lt_total(v@[i as int]@, name@);
            assert(seq_lt(name@, v@[i as int]@));
        }
    }
    v.insert(i, name);
    proof {
        assert forall|a: int, b: int| 0 <= a < b < v@.len() implies seq_lt(#[trigger] v@[a]@, #[trigger] v@[b]@) by {
            if b < i {
                assert(v@[a] == old_v[a] && v@[b] == old_v[b]);
            } else if b == i {
                assert(v@[a] == old_v[a]);
            } else if a == i {
                assert(v@[b] == old_v[b - 1]);
                if b - 1 > i {
                    lemma_seq_lt_transitive(name@, old_v[i as int]@, old_v[b - 1]@);
                }
            } else if a < i {
                assert(v@[a] == old_v[a] && v@[b] == old_v[b - 1]);
                lemma_seq_lt_transitive(old_v[a]@, name@, old_v[i as int]@);
                if b - 1 > i {
                    lemma_seq_lt_transitive(old_v[a]@, old_v[i as int]@, old_v[b - 1]@);
                }
            } else {
                assert(v@[a] == old_v[a - 1] && v@[b] == old_v[b - 1]);
            }
        }
        assert forall|x: Seq<char>| #[trigger] has_name(v@, x) <==> (has_name(old_v, x) || x == nm) by {
            if has_name(v@, x) {
                let k = choose|k: int| 0 <= k < v@.len() && #[trigger] v@[k]@ == x;
                if k < i {
                    assert(old_v[k]@ == x);
                } else if k > i {
                    assert(old_v[k - 1]@ == x);
                }
            }
            if has_name(old_v, x) {
                let k = choose|k: int| 0 <= k < old_v.len() && #[trigger] old_v[k]@ == x;
                if k < i {
                    assert(v@[k]@ == x);
                } else {
                    assert(v@[k + 1]@ == x);
                }
            }
            if x == name@ {
                assert(v@[i as int]@ == x);
            }
        }
    }
}

/// Whether the sorted list `v` holds `name`.
pub fn contains_name(v: &Vec<String>, name: &str) -> (r: bool)
    ensures
        r == has_name(v@, name@),
{
    let mut i: usize = 0;
    while i < v.len()
        invariant
            i <= v.len(),
            forall|k: int| 0 <= k < i ==> #[trigger] v@[k]@ != name@,
        decreases v.len() - i,
    {
        if crate::text::same_text(v[i].as_str(), name) {
            return true;
        }
        i = i + 1;
    }
    false
}

/// Everything the client knows and shows.
pub struct AppState {
    pub screen: Screen,
    pub username: Option<String>,
    pub session_id: Option<String>,
    pub nickname: Option<String>,
    pub ed_secret: Vec<u8>,
    pub ed_public: Vec<u8>,
    pub x25519_secret: Vec<u8>,
    pub x25519_public: Vec<u8>,
    pub chats: Vec<String>,
    pub messages: Vec<AppMessage>,
    pub status: String,
    pub peer_keys: StrMap<PeerKeys>,
    pub peer_public_keys: StrMap<Vec<u8>>,
    pub nickname_cache: StrMap<String>,
    pub bio_cache: StrMap<String>,
    pub avatar_cache: StrMap<Option<String>>,
    pub last_seen_cache: StrMap<Option<u64>>,
    pub server_address: String,
    pub saved_session: Option<(String, String)>,
    pub edit_bio: String,
    pub edit_avatar_base64: Option<String>,
}

/// The key under which a profile is cached besides its bare username.
pub open spec fn federated_key(user: UserInfo) -> Seq<char>
    recommends
        user.server_domain is Some,
{
    user.username@ + seq!['@'] + user.server_domain->0@
}

impl AppState {
    /// The state's invariant: the caches are maps and the chat list is sorted
    /// without repetition.
    pub open spec fn wf(&self) -> bool {
        &&& self.peer_keys.wf()
        &&& self.peer_public_keys.wf()
        &&& self.nickname_cache.wf()
        &&& self.bio_cache.wf()
        &&& self.avatar_cache.wf()
        &&& self.last_seen_cache.wf()
        &&& sorted_names(self.chats@)
    }

    /// A state with no session, no chats and empty caches, on the main menu.
    pub fn new_default(
        server_address: String,
        saved_session: Option<(String, String)>,
        keys: (Vec<u8>, Vec<u8>, Vec<u8>, Vec<u8>),
    ) -> (s: Self)
        ensures
            s.wf(),
            s.screen == (Screen::MainMenu { selection: 0 }),
            s.username is None,
            s.session_id is None,
            s.nickname is None,
            s.ed_secret == keys.0,
            s.ed_public == keys.1,
            s.x25519_secret == keys.2,
            s.x25519_public == keys.3,
            s.chats@.len() == 0,
            s.messages@.len() == 0,
            s.status@ == Seq::<char>::empty(),
            s.peer_keys@ == Map::<Seq<char>, PeerKeysView>::empty(),
            s.peer_public_keys@ == Map::<Seq<char>, Seq<u8>>::empty(),
            s.nickname_cache@ == Map::<Seq<char>, Seq<char>>::empty(),
            s.bio_cache@ == Map::<Seq<char>, Seq<char>>::empty(),
            s.avatar_cache@ == Map::<Seq<char>, Option<Seq<char>>>::empty(),
            s.last_seen_cache@ == Map::<Seq<char>, Option<u64>>::empty(),
            s.server_address == server_address,
            s.saved_session == saved_session,
            s.edit_bio@ == Seq::<char>::empty(),
            s.edit_avatar_base64 is None,
    {
        AppState {
            screen: Screen::MainMenu { selection: 0 },
            username: None,
            session_id: None,
            nickname: None,
            ed_secret: keys.0,
            ed_public: keys.1,
            x25519_secret: keys.2,
            x25519_public: keys.3,
            chats: Vec::new(),
            messages: Vec::new(),
            status: String::new(),
            peer_keys: StrMap::new(),
            peer_public_keys: StrMap::new(),
            nickname_cache: StrMap::new(),
            bio_cache: StrMap::new(),
            avatar_cache: StrMap::new(),
            last_seen_cache: StrMap::new(),
            server_address,
            saved_session,
            edit_bio: String::new(),
            edit_avatar_base64: None,
        }
    }

    /// Remembers the public keys of `target`.
    pub fn cache_peer_keys(&mut self, target: String, ed_pub: Vec<u8>, x_pub: Vec<u8>)
        requires
            old(self).wf(),
        ensures
            final(self).wf(),
            final(self).peer_keys@ == old(self).peer_keys@.insert(
                target@,
                PeerKeysView { ed_public: ed_pub@, x25519_public: x_pub@ },
            ),
            final(self).peer_public_keys@ == old(self).peer_public_keys@.insert(target@, ed_pub@),
            *final(self) == (AppState {
                peer_keys: final(self).peer_keys,
                peer_public_keys: final(self).peer_public_keys,
                ..*old(self)
            }),
    {
        let ed_copy = copy_bytes(&ed_pub);
        assert(ed_pub.deep_view() =~= ed_pub@);
        self.peer_keys.insert(target.clone(), PeerKeys { ed_public: ed_copy, x25519_public: x_pub });
        self.peer_public_keys.insert(target, ed_pub);
    }

    /// Remembers the signing key of `username`.
    pub fn add_peer_key(&mut self, username: String, ed_public: Vec<u8>)
        requires
            old(self).wf(),
        ensures
            final(self).wf(),
            final(self).peer_public_keys@ == old(self).peer_public_keys@.insert(username@, ed_public@),
            *final(self) == (AppState { peer_public_keys: final(self).peer_public_keys, ..*old(self) }),
    {
        assert(ed_public.deep_view() =~= ed_public@);
        self.peer_public_keys.insert(username, ed_public);
    }

    /// What the chat key with `target` is derived from: the own X25519
    /// secret and the peer's X25519 public key; an error when the peer's keys
    /// are not cached.
    pub fn chat_key_inputs(&self, target: &str) -> (r: Result<(&Vec<u8>, &Vec<u8>), AnonError>)
        requires
            self.wf(),
        ensures
            match r {
                Ok((secret, public)) => self.peer_keys@.contains_key(target@) && *secret
                    == self.x25519_secret && public@ == self.peer_keys@[target@].x25519_public,
                Err(AnonError::Crypto(msg)) => !self.peer_keys@.contains_key(target@) && msg@
                    == keys_not_cached(target@),
                Err(_) => false,
            },
    {
        match self.peer_keys.get(target) {
            Some(keys) => Ok((&self.x25519_secret, &keys.x25519_public)),
            None => {
                let msg = concat3("Keys for ", target, " not cached");
                proof {
                    reveal_strlit("Keys for ");
                    reveal_strlit(" not cached");
                }
                Err(AnonError::Crypto(msg))
            },
        }
    }

    /// What the short authentication string with `target` is computed from;
    /// `None` when the peer's keys are not cached.
    pub fn sas_inputs(&self, target: &str) -> (r: Option<(&Vec<u8>, &Vec<u8>)>)
        requires
            self.wf(),
        ensures
            match r {
                Some((secret, public)) => self.peer_keys@.contains_key(target@) && *secret
                    == self.x25519_secret && public@ == self.peer_keys@[target@].x25519_public,
                None => !self.peer_keys@.contains_key(target@),
            },
    {
        match self.peer_keys.get(target) {
            Some(keys) => Some((&self.x25519_secret, &keys.x25519_public)),
            None => None,
        }
    }

    /// The signing key that a message from `sender` is checked with: the own
    /// key for the signed-in user, else the cached key of the peer.
    pub fn get_sender_public_key(&self, sender: &str) -> (r: Option<&Vec<u8>>)
        requires
            self.wf(),
        ensures
            (self.username is Some && self.username->0@ == sender@) ==> r == Some(&self.ed_public),
            !(self.username is Some && self.username->0@ == sender@) ==> match r {
                Some(k) => self.peer_public_keys@.contains_key(sender@) && k@
                    == self.peer_public_keys@[sender@],
                None => !self.peer_public_keys@.contains_key(sender@),
            },
    {
        if let Some(u) = &self.username {
            if crate::text::same_text(u.as_str(), sender) {
                return Some(&self.ed_public);
            }
        }
        self.peer_public_keys.get(sender)
    }

    /// Stores a profile under its username and, when it names a server
    /// domain, also under `username@domain`.
    pub fn cache_profile(&mut self, user: &UserInfo)
        requires
            old(self).wf(),
        ensures
            final(self).wf(),
            post_cache_profile(*old(self), *final(self), *user),
    {
        self.nickname_cache.insert(user.username.clone(), user.nickname.clone());
        self.bio_cache.insert(user.username.clone(), user.bio.clone());
        self.avatar_cache.insert(user.username.clone(), copy_opt_string(&user.avatar_base64));
        self.last_seen_cache.insert(user.username.clone(), user.last_seen);
        if let Some(domain) = &user.server_domain {
            let key = join_at(user.username.as_str(), domain.as_str());
            self.nickname_cache.insert(key.clone(), user.nickname.clone());
            self.bio_cache.insert(key.clone(), user.bio.clone());
            self.avatar_cache.insert(key.clone(), copy_opt_string(&user.avatar_base64));
            self.last_seen_cache.insert(key, user.last_seen);
        }
    }

    /// Ends the session: forgets the user, the chats, the messages and the
    /// peers' keys, and returns to the main menu.
    pub fn logout(&mut self)
        requires
            old(self).wf(),
        ensures
            final(self).wf(),
            final(self).username is None,
            final(self).session_id is None,
            final(self).nickname is None,
            final(self).chats@.len() == 0,
            final(self).messages@.len() == 0,
            final(self).status@ == logged_out_status(),
            final(self).screen == (Screen::MainMenu { selection: 0 }),
            final(self).peer_keys@ == Map::<Seq<char>, PeerKeysView>::empty(),
            final(self).peer_public_keys@ == Map::<Seq<char>, Seq<u8>>::empty(),
            *final(self) == (AppState {
                username: None,
                session_id: None,
                nickname: None,
                chats: final(self).chats,
                messages: final(self).messages,
                status: final(self).status,
                screen: Screen::MainMenu { selection: 0 },
                peer_keys: final(self).peer_keys,
                peer_public_keys: final(self).peer_public_keys,
                ..*old(self)
            }),
    {
        self.username = None;
        self.session_id = None;
        self.nickname = None;
        self.chats.clear();
        self.messages.clear();
        self.status = "Вы вышли из системы".to_owned();
        proof { reveal_strlit("Вы вышли из системы"); }
        self.screen = Screen::MainMenu { selection: 0 };
        self.peer_keys.clear();
        self.peer_public_keys.clear();
    }

    /// Adds `name` to the chat list unless it is there already; the list stays
    /// sorted.
    pub fn remember_chat(&mut self, name: String)
        requires
            old(self).wf(),
        ensures
            final(self).wf(),
            forall|x: Seq<char>| has_name(final(self).chats@, x) <==> (has_name(old(self).chats@, x) || x == name@),
            *final(self) == (AppState { chats: final(self).chats, ..*old(self) }),
    {
        insert_sorted(&mut self.chats, name);
    }

    /// Takes in the stored history: each message is appended and both of its
    /// ends join the chat list.
    pub fn load_history(&mut self, history: Vec<AppMessage>)
        requires
            old(self).wf(),
        ensures
            final(self).wf(),
            message_views(final(self).messages@) == message_views(old(self).messages@) + message_views(history@),
            forall|x: Seq<char>| has_name(final(self).chats@, x) <==> (has_name(old(self).chats@, x)
                || touches(history@, history@.len() as int, x)),
            *final(self) == (AppState { chats: final(self).chats, messages: final(self).messages, ..*old(self) }),
    {
        let ghost start = *self;
        let mut i: usize = 0;
        while i < history.len()
            invariant
                i <= history@.len(),
                self.wf(),
                message_views(self.messages@) == message_views(start.messages@) + message_views(history@.take(i as int)),
                forall|x: Seq<char>| has_name(self.chats@, x) <==> (has_name(start.chats@, x) || touches(history@, i as int, x)),
                *self == (AppState { chats: self.chats, messages: self.messages, ..start }),
            decreases history@.len() - i,
        {
            let msg = history[i].copy();
            let ghost c0 = self.chats@;
            insert_sorted(&mut self.chats, msg.from.clone());
            let ghost c1 = self.chats@;
            insert_sorted(&mut self.chats, msg.to.clone());
            let ghost c2 = self.chats@;
            let ghost prev = message_views(self.messages@);
            self.messages.push(msg);
            proof {
                assert(message_views(self.messages@) =~= prev.push(history@[i as int]@));
                assert(message_views(history@.take(i + 1)) =~= message_views(history@.take(i as int)).push(history@[i as int]@));
                assert forall|x: Seq<char>| touches(history@, i + 1, x) == (touches(history@, i as int, x)
                    || history@[i as int].from@ == x || history@[i as int].to@ == x) by {
                    lemma_touches_step(history@, i as int, x);
                }
                assert forall|x: Seq<char>| has_name(c2, x) <==> (has_name(start.chats@, x) || touches(history@, i + 1, x)) by {
                    lemma_touches_step(history@, i as int, x);
                    assert(has_name(c1, x) <==> (has_name(c0, x) || x == history@[i as int].from@));
                    assert(has_name(c2, x) <==> (has_name(c1, x) || x == history@[i as int].to@));
                }
            }
            i = i + 1;
        }
        proof {
            assert(history@.take(history@.len() as int) =~= history@);
        }
    }

    /// Restores a saved session: the user is taken as signed in and the
    /// session is to be checked with the server.
    pub fn resume_saved_session(&mut self) -> (cmd: Option<ClientCommand>)
        requires
            old(self).wf(),
        ensures
            final(self).wf(),
            match old(self).saved_session {
                Some((u, s)) => cmd == Some(ClientCommand::ValidateSession(s)) && *final(self) == (AppState {
                    username: Some(u),
                    session_id: Some(s),
                    screen: Screen::ChatList,
                    ..*old(self)
                }),
                None => cmd is None && *final(self) == *old(self),
            },
    {
        match &self.saved_session {
            Some((u, s)) => {
                let u2 = u.clone();
                let s2 = s.clone();
                let s3 = s.clone();
                self.username = Some(u2);
                self.session_id = Some(s2);
                self.screen = Screen::ChatList;
                Some(ClientCommand::ValidateSession(s3))
            },
            None => None,
        }
    }
}

/// Some of the first `n` messages of `h` is from or to `x`.
pub open spec fn touches(h: Seq<AppMessage>, n: int, x: Seq<char>) -> bool {
    exists|k: int| 0 <= k < n && (#[trigger] h[k].from@ == x || h[k].to@ == x)
}

proof fn lemma_touches_step(h: Seq<AppMessage>, n: int, x: Seq<char>)
    requires
        0 <= n,
    ensures
        touches(h, n + 1, x) == (touches(h, n, x) || h[n].from@ == x || h[n].to@ == x),
{
    if touches(h, n + 1, x) {
        let k = choose|k: int| 0 <= k < n + 1 && (#[trigger] h[k].from@ == x || h[k].to@ == x);
        if k < n {
            assert(0 <= k < n && (h[k].from@ == x || h[k].to@ == x));
        }
    }
    if touches(h, n, x) {
        let k = choose|k: int| 0 <= k < n && (#[trigger] h[k].from@ == x || h[k].to@ == x);
        assert(0 <= k < n + 1 && (h[k].from@ == x || h[k].to@ == x));
    }
    if h[n].from@ == x || h[n].to@ == x {
        assert(0 <= n < n + 1 && (h[n].from@ == x || h[n].to@ == x));
    }
}

/// The state `s1` is `s0` with the profile `user` cached under its username
/// and, when it names a server domain, under `username@domain` too.
pub open spec fn post_cache_profile(s0: AppState, s1: AppState, user: UserInfo) -> bool {
    let k = user.username@;
    let nick1 = s0.nickname_cache@.insert(k, user.nickname@);
    let bio1 = s0.bio_cache@.insert(k, user.bio@);
    let av1 = s0.avatar_cache@.insert(k, user.avatar_base64.deep_view());
    let ls1 = s0.last_seen_cache@.insert(k, user.last_seen);
    &&& match user.server_domain {
        Some(_) => {
            let f = federated_key(user);
            &&& s1.nickname_cache@ == nick1.insert(f, user.nickname@)
            &&& s1.bio_cache@ == bio1.insert(f, user.bio@)
            &&& s1.avatar_cache@ == av1.insert(f, user.avatar_base64.deep_view())
            &&& s1.last_seen_cache@ == ls1.insert(f, user.last_seen)
        },
        None => {
            &&& s1.nickname_cache@ == nick1
            &&& s1.bio_cache@ == bio1
            &&& s1.avatar_cache@ == av1
            &&& s1.last_seen_cache@ == ls1
        },
    }
    &&& s1 == AppState {
        nickname_cache: s1.nickname_cache,
        bio_cache: s1.bio_cache,
        avatar_cache: s1.avatar_cache,
        last_seen_cache: s1.last_seen_cache,
        ..s0
    }
}

/// The error text when the keys of `target` are not cached.
pub open spec fn keys_not_cached(target: Seq<char>) -> Seq<char> {
    "Keys for "@ + target + " not cached"@
}

pub open spec fn logged_out_status() -> Seq<char> {
    "Вы вышли из системы"@
}

}
