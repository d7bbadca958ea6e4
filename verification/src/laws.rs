//! Properties of the client that span several operations.
use vstd::prelude::*;
use crate::display::{last_time, presence, shown_in_chat, shown_indices};
use crate::model::{Effect, Model, UiMessage};
use crate::network::{ClientCommand, ServerEvent, event_of, payload_of};
use crate::protocol::{AppMessage, ClientPayload, ServerPayload};
use crate::state::{AppState, PeerKeysView, Screen, has_name, sorted_names};
use crate::text::local_part;
use crate::storage::{sqlite_url_of, strip_leading};
use crate::text::{has_prefix, lemma_seq_lt_irreflexive, seq_lt, lemma_seq_lt_transitive};
use crate::update::network::full_username;
use crate::update::post_update;

verus! {

/// The chat list holds no name twice: in a sorted list two positions never
/// hold the same name.
pub proof fn law_sorted_chats_have_no_repeats(chats: Seq<String>, i: int, j: int)
    requires
        sorted_names(chats),
        0 <= i < chats.len(),
        0 <= j < chats.len(),
        i != j,
    ensures
        chats[i]@ != chats[j]@,
{
    if i < j {
        assert(seq_lt(chats[i]@, chats[j]@));
        if chats[i]@ == chats[j]@ {
            lemma_seq_lt_irreflexive(chats[i]@);
        }
    } else {
        assert(seq_lt(chats[j]@, chats[i]@));
        if chats[i]@ == chats[j]@ {
            lemma_seq_lt_irreflexive(chats[j]@);
        }
    }
}

/// What is cached of a peer's keys is what a later lookup finds: the chat key
/// is derived from the cached X25519 key and the cached Ed25519 key checks
/// the peer's signatures.
pub proof fn law_cached_keys_are_read_back(s0: AppState, s1: AppState, target: Seq<char>, ed: Seq<u8>, x: Seq<u8>)
    requires
        s1.peer_keys@ == s0.peer_keys@.insert(target, PeerKeysView { ed_public: ed, x25519_public: x }),
        s1.peer_public_keys@ == s0.peer_public_keys@.insert(target, ed),
    ensures
        s1.peer_keys@.contains_key(target),
        s1.peer_keys@[target].x25519_public == x,
        s1.peer_keys@[target].ed_public == ed,
        s1.peer_public_keys@.contains_key(target),
        s1.peer_public_keys@[target] == ed,
{
}

/// Switching the theme twice gives back the theme one started with.
pub proof fn law_theme_toggle_twice(m0: Model, m1: Model, m2: Model, fx1: Seq<Effect>, fx2: Seq<Effect>, now: u64)
    requires
        post_update(m0, m1, fx1, UiMessage::ToggleTheme, now),
        post_update(m1, m2, fx2, UiMessage::ToggleTheme, now),
    ensures
        m2 == m0,
{
}

/// The name under which a user is signed in after a sign-in from the form
/// always holds an `@`: it is qualified by a server domain.
pub proof fn law_signed_in_name_is_qualified(username: Seq<char>, address: Seq<char>)
    ensures
        full_username(username, address).contains('@'),
{
    if !username.contains('@') {
        let f = full_username(username, address);
        assert(f[username.len() as int] == '@');
    }
}

/// The message history only grows: every message but signing out keeps the
/// messages that were there, in order, at the front.
pub proof fn law_history_is_append_only(m0: Model, m1: Model, fx: Seq<Effect>, msg: UiMessage, now: u64)
    requires
        m0.wf(),
        post_update(m0, m1, fx, msg, now),
        !(msg is Logout),
    ensures
        m0.state.messages@.len() <= m1.state.messages@.len(),
        m1.state.messages@.take(m0.state.messages@.len() as int) == m0.state.messages@,
{
    let n = m0.state.messages@.len() as int;
    if m1.state.messages@.len() == n + 1 {
        if m1.state.messages@.drop_last() == m0.state.messages@ {
            assert(m1.state.messages@.take(n) =~= m1.state.messages@.drop_last());
        }
    }
    if m1.state.messages == m0.state.messages {
        assert(m1.state.messages@.take(n) =~= m0.state.messages@);
    }
}

/// Every message that the chat with `target` shows is a message of that
/// conversation with a ciphertext, and the positions come in increasing
/// order.
pub proof fn law_chat_shows_only_its_conversation(ms: Seq<AppMessage>, me: Seq<char>, target: Seq<char>, n: int)
    requires
        0 <= n <= ms.len(),
        ms.len() <= usize::MAX,
    ensures
        forall|k: int| 0 <= k < shown_indices(ms, me, target, n).len() ==> {
            let i = #[trigger] shown_indices(ms, me, target, n)[k];
            &&& i < n
            &&& shown_in_chat(ms[i as int], me, target)
        },
        forall|a: int, b: int| 0 <= a < b < shown_indices(ms, me, target, n).len()
            ==> shown_indices(ms, me, target, n)[a] < shown_indices(ms, me, target, n)[b],
    decreases n,
{
    if n > 0 {
        law_chat_shows_only_its_conversation(ms, me, target, n - 1);
        let prev = shown_indices(ms, me, target, n - 1);
        let cur = shown_indices(ms, me, target, n);
        if shown_in_chat(ms[n - 1], me, target) {
            assert(cur == prev.push((n - 1) as usize));
            assert forall|k: int| 0 <= k < cur.len() implies {
                let i = #[trigger] cur[k];
                &&& i < n
                &&& shown_in_chat(ms[i as int], me, target)
            } by {
                if k < prev.len() {
                    assert(cur[k] == prev[k]);
                }
            }
            assert forall|a: int, b: int| 0 <= a < b < cur.len() implies cur[a] < cur[b] by {
                assert(cur[a] == prev[a]);
                if b < prev.len() {
                    assert(cur[b] == prev[b]);
                }
            }
        } else {
            assert(cur == prev);
        }
    }
}

/// Opening a database by a URL-like path gives the same URL as by the bare
/// path: a leading `sqlite://` makes no difference.
pub proof fn law_sqlite_prefix_is_ignored(path: Seq<char>)
    ensures
        sqlite_url_of("sqlite://"@ + path) == sqlite_url_of(path),
{
    reveal_strlit("sqlite://");
    let p = "sqlite://"@;
    let s = p + path;
    assert(s.take(p.len() as int) =~= p);
    assert(s.skip(p.len() as int) =~= path);
}

/// Every message that an update adds to the history is also handed to the
/// local store, as the effect that comes first.
pub proof fn law_new_messages_are_stored(m0: Model, m1: Model, fx: Seq<Effect>, msg: UiMessage, now: u64)
    requires
        m0.wf(),
        post_update(m0, m1, fx, msg, now),
        m1.state.messages@.len() > m0.state.messages@.len(),
    ensures
        fx.len() >= 1,
        fx[0] matches Effect::SaveMessage(saved) && saved@ == m1.state.messages@.last()@,
{
}

/// A chat never leaves the chat list except by signing out.
pub proof fn law_chat_list_only_grows(m0: Model, m1: Model, fx: Seq<Effect>, msg: UiMessage, now: u64, name: Seq<char>)
    requires
        m0.wf(),
        post_update(m0, m1, fx, msg, now),
        !(msg is Logout),
        has_name(m0.state.chats@, name),
    ensures
        has_name(m1.state.chats@, name),
{
}


/// The name a new message's sender is compared with: the signed-in user's,
/// or the empty name when signed out.
pub open spec fn signed_in_as(st: AppState) -> Seq<char> {
    match st.username {
        Some(u) => u@,
        None => Seq::empty(),
    }
}

/// A new message announces itself (sound and desktop notification) exactly
/// when it comes from someone other than the user and the chat with the
/// sender is not the one open, whether or not the sender is already in the
/// chat list.
pub proof fn law_new_message_notifies_unless_own_or_open(
    m0: Model,
    m1: Model,
    fx: Seq<Effect>,
    msg: AppMessage,
    now: u64,
)
    requires
        m0.wf(),
        post_update(m0, m1, fx, UiMessage::Network(ServerEvent::NewMessage(msg)), now),
    ensures
        (exists|i: int| 0 <= i < fx.len() && fx[i] == Effect::Notify { sender: msg.from }) <==> (
        msg.from@ != signed_in_as(m0.state) && !(m0.state.screen matches Screen::ChatView { target, .. }
            && target@ == msg.from@)),
{
    let st = m0.state;
    let from = msg.from@;
    let me = crate::update::network::my_name(st);
    let add = from != me && !has_name(st.chats@, from);
    let notify = from != me && !crate::update::network::is_active_chat(st.screen, from);
    let a = crate::model::effect_if(
        !st.peer_keys@.contains_key(from),
        Effect::Send(ClientCommand::FetchPeerKeys(msg.from)),
    );
    let b = crate::model::effect_if(
        !st.nickname_cache@.contains_key(from),
        Effect::Send(ClientCommand::RequestProfile(msg.from)),
    );
    let c = crate::model::effect_if(notify, Effect::Notify { sender: msg.from });
    let d = crate::model::effect_if(add, Effect::Dispatch(UiMessage::Tick));
    let tail = a + b + c + seq![Effect::ScrollToBottom] + d;
    assert(fx.skip(1) == tail);
    assert(me == signed_in_as(st));
    if notify {
        let i: int = (1 + a.len() + b.len()) as int;
        assert(fx[i] == fx.skip(1)[i - 1]);
        assert(tail[i - 1] == Effect::Notify { sender: msg.from });
    }
    assert forall|i: int| 0 <= i < fx.len() && fx[i] == Effect::Notify { sender: msg.from } implies notify by {
        if i >= 1 {
            assert(fx[i] == tail[i - 1]);
            let k = i - 1;
            if k < a.len() {
                assert(tail[k] == a[k]);
            } else if k < a.len() + b.len() {
                assert(tail[k] == b[k - a.len()]);
            } else if k < a.len() + b.len() + c.len() {
                assert(tail[k] == c[k - a.len() - b.len()]);
            } else if k == a.len() + b.len() + c.len() {
                assert(tail[k] == Effect::ScrollToBottom);
            } else {
                assert(tail[k] == d[k - a.len() - b.len() - c.len() - 1]);
            }
        }
    }
}

/// Whether `m` passes between the user `me` and the chat `chat`, in either
/// direction: from the user (by the local part of the name) to the chat, or
/// from the chat to the user.
pub open spec fn passes_between(m: AppMessage, me: Seq<char>, chat: Seq<char>) -> bool {
    ||| local_part(m.from@) == local_part(me) && m.to@ == chat
    ||| local_part(m.to@) == local_part(me) && m.from@ == chat
}

/// The time of a chat's last activity, as `last_activity` reports it for the
/// first `n` messages, is the time of the latest message that passes between
/// the user and the chat in either direction, and there is none exactly when
/// no such message exists.
pub proof fn law_last_activity_is_the_latest_exchange(ms: Seq<AppMessage>, me: Seq<char>, chat: Seq<char>, n: int)
    requires
        0 <= n <= ms.len(),
    ensures
        match last_time(ms, me, chat, n) {
            Some(t) => exists|i: int|
                0 <= i < n && #[trigger] passes_between(ms[i], me, chat) && ms[i].timestamp == t && forall|j: int|
                    i < j < n ==> !#[trigger] passes_between(ms[j], me, chat),
            None => forall|j: int| 0 <= j < n ==> !#[trigger] passes_between(ms[j], me, chat),
        },
    decreases n,
{
    if n > 0 {
        law_last_activity_is_the_latest_exchange(ms, me, chat, n - 1);
        if passes_between(ms[n - 1], me, chat) {
            assert(passes_between(ms[n - 1], me, chat) && ms[n - 1].timestamp == ms[n - 1].timestamp);
        } else {
            match last_time(ms, me, chat, n - 1) {
                Some(t) => {
                    let i = choose|i: int|
                        0 <= i < n - 1 && #[trigger] passes_between(ms[i], me, chat) && ms[i].timestamp == t
                            && forall|j: int| i < j < n - 1 ==> !#[trigger] passes_between(ms[j], me, chat);
                    assert forall|j: int| i < j < n implies !#[trigger] passes_between(ms[j], me, chat) by {
                        if j < n - 1 {
                        }
                    }
                },
                None => {},
            }
        }
    }
}

/// Sending a message to a chat, or receiving one from it, makes that
/// message's time the chat's last activity.
pub proof fn law_new_exchange_sets_last_activity(ms: Seq<AppMessage>, me: Seq<char>, chat: Seq<char>, m: AppMessage)
    requires
        passes_between(m, me, chat),
    ensures
        last_time(ms.push(m), me, chat, ms.len() + 1 as int) == Some(m.timestamp),
{
    law_last_activity_is_the_latest_exchange(ms.push(m), me, chat, ms.len() + 1 as int);
    match last_time(ms.push(m), me, chat, ms.len() + 1 as int) {
        Some(t) => {
            let i = choose|i: int|
                0 <= i < ms.len() + 1 as int && #[trigger] passes_between(ms.push(m)[i], me, chat)
                    && ms.push(m)[i].timestamp == t && forall|j: int|
                    i < j < ms.len() + 1 as int ==> !#[trigger] passes_between(ms.push(m)[j], me, chat);
            if i < ms.len() {
                assert(passes_between(ms.push(m)[ms.len() as int], me, chat));
            }
        },
        None => {
            assert(passes_between(ms.push(m)[ms.len() as int], me, chat));
        },
    }
}

/// A sign-in or registration payload carries the name, password and keys of
/// its command, each in its own field: the Ed25519 key as `ed_public` and the
/// X25519 key as `x25519_public`.
pub proof fn law_sign_in_payload_keeps_its_keys(cmd: ClientCommand, p: ClientPayload)
    requires
        p == payload_of(cmd),
    ensures
        cmd matches ClientCommand::Login(u, pw, ep, xp) ==> (p matches ClientPayload::Login {
            username,
            password,
            ed_public,
            x25519_public,
        } && username@ == u@ && password@ == pw@ && ed_public@ == ep@ && x25519_public@ == xp@),
        cmd matches ClientCommand::Register(n, u, pw, ep, xp) ==> (p matches ClientPayload::Register {
            nickname,
            username,
            password,
            ed_public,
            x25519_public,
        } && nickname@ == n@ && username@ == u@ && password@ == pw@ && ed_public@ == ep@ && x25519_public@
            == xp@),
{
}

/// The event of a key payload carries the target and the keys in the same
/// fields: the Ed25519 key as `ed_public` and the X25519 key as
/// `x25519_public`.
pub proof fn law_key_event_keeps_its_keys(p: ServerPayload, e: ServerEvent)
    requires
        e == event_of(p),
    ensures
        p matches ServerPayload::PeerKeys { target: t, ed_public: ed, x25519_public: x } ==> (e matches ServerEvent::PeerKeys {
            target,
            ed_public,
            x25519_public,
        } && target@ == t@ && ed_public@ == ed@ && x25519_public@ == x@),
{
}

/// One's own profile always shows as online, whatever last-seen time is
/// cached for it and whatever the time.
pub proof fn law_own_profile_is_online(last_seen: Option<u64>, now: u64)
    ensures
        presence(true, last_seen, now) == "В сети"@,
{
}

/// The keys that a key event brings are cached under its target, each as
/// what it is: the Ed25519 key checks the peer's signatures and the X25519
/// key derives the chat key.
pub proof fn law_received_keys_are_cached_in_place(
    m0: Model,
    m1: Model,
    fx: Seq<Effect>,
    target: String,
    ed: Vec<u8>,
    x: Vec<u8>,
    now: u64,
)
    requires
        m0.wf(),
        post_update(
            m0,
            m1,
            fx,
            UiMessage::Network(ServerEvent::PeerKeys { target, ed_public: ed, x25519_public: x }),
            now,
        ),
    ensures
        m1.state.peer_keys@.contains_key(target@),
        m1.state.peer_keys@[target@].ed_public == ed@,
        m1.state.peer_keys@[target@].x25519_public == x@,
        m1.state.peer_public_keys@.contains_key(target@),
        m1.state.peer_public_keys@[target@] == ed@,
{
}

/// Keys handed to the interface directly are cached the same way: the
/// Ed25519 key as the signature key and the X25519 key for the chat key.
pub proof fn law_handed_keys_are_cached_in_place(
    m0: Model,
    m1: Model,
    fx: Seq<Effect>,
    target: String,
    ed: Vec<u8>,
    x: Vec<u8>,
    now: u64,
)
    requires
        m0.wf(),
        post_update(m0, m1, fx, UiMessage::KeysReceived { target, ed_public: ed, x25519_public: x }, now),
    ensures
        m1.state.peer_keys@.contains_key(target@),
        m1.state.peer_keys@[target@].ed_public == ed@,
        m1.state.peer_keys@[target@].x25519_public == x@,
        m1.state.peer_public_keys@.contains_key(target@),
        m1.state.peer_public_keys@[target@] == ed@,
{
}
}
