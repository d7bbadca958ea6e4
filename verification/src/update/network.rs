//! What the interface does with the events of the connection.
use vstd::prelude::*;
use crate::model::{Effect, Model, UiMessage, effect_if};
use crate::network::{ClientCommand, ServerEvent};
use crate::protocol::{AppMessage, AppMessageView};
use crate::state::{AppState, PeerKeysView, Screen, has_name, contains_name, post_cache_profile};
use crate::text::{contains_char, join_at, same_text, server_domain, server_domain_of, concat3};
use crate::update::chat::chats_after;

verus! {

/// The full name of the user who signed in with `username` on the server at
/// `address`: the name as typed when it holds an `@`, else the name, `@` and
/// the server's domain.
pub open spec fn full_username(username: Seq<char>, address: Seq<char>) -> Seq<char> {
    if username.contains('@') {
        username
    } else {
        username + seq!['@'] + server_domain(address)
    }
}

pub open spec fn auth_ok_status() -> Seq<char> {
    "Успешная авторизация"@
}

pub open spec fn error_prefix() -> Seq<char> {
    "Ошибка: "@
}

pub open spec fn disconnected_status() -> Seq<char> {
    "Соединение разорвано"@
}

/// The name that the signed-in user is compared with (empty when signed
/// out).
pub open spec fn my_name(st: AppState) -> Seq<char> {
    match st.username {
        Some(u) => u@,
        None => Seq::empty(),
    }
}

/// Whether the open screen is the chat with `who`.
pub open spec fn is_active_chat(s: Screen, who: Seq<char>) -> bool {
    s matches Screen::ChatView { target, .. } && target@ == who
}

/// What a new message from the server does.
pub open spec fn post_new_message(m0: Model, m1: Model, fx: Seq<Effect>, msg: AppMessage, now: u64) -> bool {
    let st = m0.state;
    let from = msg.from@;
    let me = my_name(st);
    let stamped = AppMessageView { timestamp: now, ..msg@ };
    let add = from != me && !has_name(st.chats@, from);
    let notify = from != me && !is_active_chat(st.screen, from);
    &&& m1.state.messages@.len() == st.messages@.len() + 1
    &&& m1.state.messages@.drop_last() == st.messages@
    &&& m1.state.messages@.last()@ == stamped
    &&& chats_after(st.chats@, m1.state.chats@, add, from)
    &&& m1 == Model { state: AppState { messages: m1.state.messages, chats: m1.state.chats, ..st }, ..m0 }
    &&& fx.len() >= 1
    &&& fx[0] matches Effect::SaveMessage(a) && a@ == stamped
    &&& fx.skip(1) == effect_if(
        !st.peer_keys@.contains_key(from),
        Effect::Send(ClientCommand::FetchPeerKeys(msg.from)),
    ) + effect_if(
        !st.nickname_cache@.contains_key(from),
        Effect::Send(ClientCommand::RequestProfile(msg.from)),
    ) + effect_if(notify, Effect::Notify { sender: msg.from }) + seq![Effect::ScrollToBottom] + effect_if(
        add,
        Effect::Dispatch(UiMessage::Tick),
    )
}

/// What an event of the connection does.
pub open spec fn post_handle(m0: Model, m1: Model, fx: Seq<Effect>, ev: ServerEvent, now: u64) -> bool {
    let st = m0.state;
    match ev {
        ServerEvent::AuthOk(sid) => {
            &&& m1.state.status@ == auth_ok_status()
            &&& match st.screen {
                Screen::AuthForm { username, nickname, .. } => {
                    let full = full_username(username@, st.server_address@);
                    &&& m1.state.username matches Some(u) && u@ == full
                    &&& fx.len() == 1
                    &&& fx[0] matches Effect::SaveLocalSession { username: a, session_id: b } && a@ == full && b
                        == sid
                    &&& m1 == Model {
                        state: AppState {
                            session_id: Some(sid),
                            username: m1.state.username,
                            nickname: Some(nickname),
                            screen: Screen::ChatList,
                            status: m1.state.status,
                            ..st
                        },
                        ..m0
                    }
                },
                _ => {
                    &&& fx.len() == 0
                    &&& m1 == Model {
                        state: AppState {
                            session_id: Some(sid),
                            username: match st.saved_session {
                                Some((u, _)) => Some(u),
                                None => st.username,
                            },
                            screen: Screen::ChatList,
                            status: m1.state.status,
                            ..st
                        },
                        ..m0
                    }
                },
            }
        },
        ServerEvent::AuthErr(e) => {
            &&& m1.state.status@ == error_prefix() + e@
            &&& if st.saved_session is Some {
                &&& fx == seq![Effect::ClearLocalSession]
                &&& m1 == Model {
                    state: AppState {
                        status: m1.state.status,
                        saved_session: None,
                        screen: Screen::MainMenu { selection: 0 },
                        username: None,
                        session_id: None,
                        ..st
                    },
                    ..m0
                }
            } else {
                &&& fx.len() == 0
                &&& m1 == Model { state: AppState { status: m1.state.status, ..st }, ..m0 }
            }
        },
        ServerEvent::ProfileReceived(user) => {
            &&& post_cache_profile(st, m1.state, user)
            &&& m1 == Model { state: m1.state, ..m0 }
            &&& fx == seq![Effect::Dispatch(UiMessage::ProfileReceived(user))]
        },
        ServerEvent::ProfileUpdated => {
            &&& m1 == m0
            &&& fx == match st.username {
                Some(u) => seq![Effect::Send(ClientCommand::RequestProfile(u))],
                None => Seq::empty(),
            }
        },
        ServerEvent::NewMessage(msg) => post_new_message(m0, m1, fx, msg, now),
        ServerEvent::Disconnect => {
            &&& m1.state.status@ == disconnected_status()
            &&& m1 == Model { state: AppState { status: m1.state.status, ..st }, ..m0 }
            &&& fx.len() == 0
        },
        ServerEvent::PeerKeys { target, ed_public, x25519_public } => {
            &&& m1.state.peer_keys@ == st.peer_keys@.insert(
                target@,
                PeerKeysView { ed_public: ed_public@, x25519_public: x25519_public@ },
            )
            &&& m1.state.peer_public_keys@ == st.peer_public_keys@.insert(target@, ed_public@)
            &&& m1 == Model {
                state: AppState {
                    peer_keys: m1.state.peer_keys,
                    peer_public_keys: m1.state.peer_public_keys,
                    ..st
                },
                ..m0
            }
            &&& fx == seq![Effect::Dispatch(UiMessage::KeysReceived { target, ed_public, x25519_public })]
        },
        ServerEvent::SearchResults(matches) => {
            &&& m1 == Model { search_matches: matches, ..m0 }
            &&& fx.len() == 0
        },
        ServerEvent::UserSearchResult { username, exists } => {
            &&& m1 == m0
            &&& fx == seq![Effect::Dispatch(UiMessage::SearchResult { username, exists })]
        },
    }
}

fn handle_auth_ok(model: &mut Model, sid: String) -> (fx: Vec<Effect>)
    requires
        old(model).wf(),
    ensures
        final(model).wf(),
        post_handle(*old(model), *final(model), fx@, ServerEvent::AuthOk(sid), 0),
{
    let mut fx: Vec<Effect> = Vec::new();
    model.state.session_id = Some(sid.clone());
    let form = match &model.state.screen {
        Screen::AuthForm { username, nickname, .. } => Some((username.clone(), nickname.clone())),
        _ => None,
    };
    match form {
        Some((username, nickname)) => {
            let full = if contains_char(username.as_str(), '@') {
                username
            } else {
                let domain = server_domain_of(model.state.server_address.as_str());
                join_at(username.as_str(), domain.as_str())
            };
            model.state.username = Some(full.clone());
            model.state.nickname = Some(nickname);
            fx.push(Effect::SaveLocalSession { username: full, session_id: sid });
        },
        None => {
            match &model.state.saved_session {
                Some((saved_user, _)) => {
                    model.state.username = Some(saved_user.clone());
                },
                None => {},
            }
        },
    }
    model.state.screen = Screen::ChatList;
    model.state.status = "Успешная авторизация".to_owned();
    proof { reveal_strlit("Успешная авторизация"); }
    fx
}

fn handle_auth_err(model: &mut Model, e: String) -> (fx: Vec<Effect>)
    requires
        old(model).wf(),
    ensures
        final(model).wf(),
        post_handle(*old(model), *final(model), fx@, ServerEvent::AuthErr(e), 0),
{
    let mut fx: Vec<Effect> = Vec::new();
    model.state.status = concat3("Ошибка: ", e.as_str(), "");
    proof {
        reveal_strlit("Ошибка: ");
        reveal_strlit("");
        assert(model.state.status@ =~= error_prefix() + e@);
    }
    if model.state.saved_session.is_some() {
        model.state.saved_session = None;
        fx.push(Effect::ClearLocalSession);
        model.state.screen = Screen::MainMenu { selection: 0 };
        model.state.username = None;
        model.state.session_id = None;
    }
    fx
}

/// The work that follows a new message from `from`, in order.
fn message_followups(from: &String, fetch: bool, profile: bool, notify: bool, add: bool) -> (fx: Vec<Effect>)
    ensures
        fx@ == effect_if(fetch, Effect::Send(ClientCommand::FetchPeerKeys(*from))) + effect_if(
            profile,
            Effect::Send(ClientCommand::RequestProfile(*from)),
        ) + effect_if(notify, Effect::Notify { sender: *from }) + seq![Effect::ScrollToBottom] + effect_if(
            add,
            Effect::Dispatch(UiMessage::Tick),
        ),
{
    let mut fx: Vec<Effect> = Vec::new();
    if fetch {
        fx.push(Effect::Send(ClientCommand::FetchPeerKeys(from.clone())));
    }
    let ghost after_fetch = fx@;
    if profile {
        fx.push(Effect::Send(ClientCommand::RequestProfile(from.clone())));
    }
    let ghost after_profile = fx@;
    if notify {
        fx.push(Effect::Notify { sender: from.clone() });
    }
    let ghost after_notify = fx@;
    fx.push(Effect::ScrollToBottom);
    let ghost after_scroll = fx@;
    if add {
        fx.push(Effect::Dispatch(UiMessage::Tick));
    }
    proof {
        let a = effect_if(fetch, Effect::Send(ClientCommand::FetchPeerKeys(*from)));
        let b = effect_if(profile, Effect::Send(ClientCommand::RequestProfile(*from)));
        let c = effect_if(notify, Effect::Notify { sender: *from });
        let d = effect_if(add, Effect::Dispatch(UiMessage::Tick));
        assert(after_fetch =~= a);
        assert(after_profile =~= a + b);
        assert(after_notify =~= a + b + c);
        assert(after_scroll =~= a + b + c + seq![Effect::ScrollToBottom]);
        assert(fx@ =~= a + b + c + seq![Effect::ScrollToBottom] + d);
    }
    fx
}

fn handle_new_message(model: &mut Model, msg: AppMessage, now: u64) -> (fx: Vec<Effect>)
    requires
        old(model).wf(),
    ensures
        final(model).wf(),
        post_new_message(*old(model), *final(model), fx@, msg, now),
{
    let ghost from = msg.from@;
    let from_me = match &model.state.username {
        Some(u) => same_text(u.as_str(), msg.from.as_str()),
        None => msg.from.as_str().is_empty(),
    };
    proof {
        if model.state.username is None && msg.from@.len() == 0 {
            assert(msg.from@ =~= Seq::<char>::empty());
        }
        assert(from_me == (from == my_name(model.state)));
    }
    let add = !from_me && !contains_name(&model.state.chats, msg.from.as_str());
    let fetch = !model.state.peer_keys.contains_key(msg.from.as_str());
    let profile = !model.state.nickname_cache.contains_key(msg.from.as_str());
    let active = match &model.state.screen {
        Screen::ChatView { target, .. } => same_text(target.as_str(), msg.from.as_str()),
        _ => false,
    };
    assert(active == is_active_chat(model.state.screen, from));
    let notify = !from_me && !active;
    let tail = message_followups(&msg.from, fetch, profile, notify, add);
    let mut msg = msg;
    msg.timestamp = now;
    let stored = msg.copy();
    model.state.messages.push(stored);
    assert(model.state.messages@.drop_last() =~= old(model).state.messages@);
    if add {
        model.state.remember_chat(msg.from.clone());
    }
    let mut fx: Vec<Effect> = Vec::new();
    fx.push(Effect::SaveMessage(msg));
    let ghost head = fx@;
    let ghost tail_v = tail@;
    let mut tail = tail;
    fx.append(&mut tail);
    assert(fx@.skip(1) =~= tail_v);
    fx
}

/// Acts on an event of the connection at time `now` (seconds since the
/// epoch).
pub fn handle(model: &mut Model, ev: ServerEvent, now: u64) -> (fx: Vec<Effect>)
    requires
        old(model).wf(),
    ensures
        final(model).wf(),
        post_handle(*old(model), *final(model), fx@, ev, now),
{
    match ev {
        ServerEvent::AuthOk(sid) => handle_auth_ok(model, sid),
        ServerEvent::AuthErr(e) => handle_auth_err(model, e),
        ServerEvent::ProfileReceived(user) => {
            model.state.cache_profile(&user);
            let mut fx: Vec<Effect> = Vec::new();
            fx.push(Effect::Dispatch(UiMessage::ProfileReceived(user)));
            fx
        },
        ServerEvent::ProfileUpdated => {
            let mut fx: Vec<Effect> = Vec::new();
            match &model.state.username {
                Some(u) => {
                    fx.push(Effect::Send(ClientCommand::RequestProfile(u.clone())));
                },
                None => {},
            }
            fx
        },
        ServerEvent::NewMessage(msg) => handle_new_message(model, msg, now),
        ServerEvent::Disconnect => {
            model.state.status = "Соединение разорвано".to_owned();
            proof { reveal_strlit("Соединение разорвано"); }
            Vec::new()
        },
        ServerEvent::PeerKeys { target, ed_public, x25519_public } => {
            let ed_copy = crate::protocol::copy_bytes(&ed_public);
            let x_copy = crate::protocol::copy_bytes(&x25519_public);
            model.state.cache_peer_keys(target.clone(), ed_copy, x_copy);
            let mut fx: Vec<Effect> = Vec::new();
            fx.push(Effect::Dispatch(UiMessage::KeysReceived { target, ed_public, x25519_public }));
            fx
        },
        ServerEvent::SearchResults(matches) => {
            model.search_matches = matches;
            Vec::new()
        },
        ServerEvent::UserSearchResult { username, exists } => {
            let mut fx: Vec<Effect> = Vec::new();
            fx.push(Effect::Dispatch(UiMessage::SearchResult { username, exists }));
            fx
        },
    }
}

}
