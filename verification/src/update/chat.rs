//! Opening chats, writing and sending messages, and searching for users.
use vstd::prelude::*;
use crate::model::{Effect, Model, SealOutcome, UiMessage, effect_if};
use crate::network::ClientCommand;
use crate::protocol::{AppMessage, MessageContent, UserInfo, copy_bytes};
use crate::state::{AppState, Screen, has_name, message_views, contains_name, PeerKeysView};
use crate::text::{blank, is_blank, same_text, trim, trimmed};
use crate::update::auth::only_status_changed;
use vstd::utf8::encode_utf8;

verus! {

/// Whether opening a chat with `t` adds it to the chat list: it is not there
/// yet and it is not the signed-in user.
pub open spec fn should_add_chat(st: AppState, t: Seq<char>) -> bool {
    !has_name(st.chats@, t) && (st.username is None || st.username->0@ != t)
}

/// The chat list `c1` is `c0`, with `t` added when `add` holds.
pub open spec fn chats_after(c0: Seq<String>, c1: Seq<String>, add: bool, t: Seq<char>) -> bool {
    if add {
        forall|x: Seq<char>| has_name(c1, x) <==> (has_name(c0, x) || x == t)
    } else {
        c1 == c0
    }
}

pub open spec fn no_peer_keys() -> Seq<char> {
    "Нет ключей собеседника"@
}

pub open spec fn serialize_failed() -> Seq<char> {
    "Ошибка сериализации"@
}

pub open spec fn encrypt_failed() -> Seq<char> {
    "Ошибка шифрования"@
}

/// The 128 bits of a random (version 4, RFC 4122 variant) UUID.
pub open spec fn is_v4_id(id: u128) -> bool {
    (id >> 76u128) & 0xFu128 == 4u128 && (id >> 62u128) & 0x3u128 == 2u128
}

/// A fresh random message id (`uuid::Uuid::new_v4`, as 128 bits). Only the
/// version and variant bits of the result are stated: the rest is random.
#[verifier::external_body]
fn random_message_id() -> (id: u128)
    ensures
        is_v4_id(id),
{
    uuid::Uuid::new_v4().as_u128()
}

/// What opening the chat with `target` does.
pub open spec fn post_select(m0: Model, m1: Model, fx: Seq<Effect>, target: String) -> bool {
    &&& chats_after(m0.state.chats@, m1.state.chats@, should_add_chat(m0.state, target@), target@)
    &&& m1 == Model {
        state: AppState {
            chats: m1.state.chats,
            screen: m1.state.screen,
            status: m1.state.status,
            ..m0.state
        },
        selected_chat: Some(target),
        ..m0
    }
    &&& m1.state.screen matches Screen::ChatView { target: t, input } && t == target && input@.len() == 0
    &&& m1.state.status@.len() == 0
    &&& fx == effect_if(
        !m0.state.peer_keys@.contains_key(target@),
        Effect::Send(ClientCommand::FetchPeerKeys(target)),
    ) + effect_if(
        !m0.state.nickname_cache@.contains_key(target@),
        Effect::Send(ClientCommand::RequestProfile(target)),
    ) + seq![Effect::ScrollToBottom]
}

/// Opens the chat with `target`, adding it to the list when it is new, and
/// asks for the peer's keys and profile when they are not known.
pub fn select(model: &mut Model, target: String) -> (fx: Vec<Effect>)
    requires
        old(model).wf(),
    ensures
        final(model).wf(),
        post_select(*old(model), *final(model), fx@, target),
{
    let add = !contains_name(&model.state.chats, target.as_str()) && match &model.state.username {
        None => true,
        Some(u) => !same_text(u.as_str(), target.as_str()),
    };
    if add {
        model.state.remember_chat(target.clone());
    }
    model.selected_chat = Some(target.clone());
    model.state.screen = Screen::ChatView { target: target.clone(), input: String::new() };
    model.state.status = String::new();
    let mut fx: Vec<Effect> = Vec::new();
    if !model.state.peer_keys.contains_key(target.as_str()) {
        fx.push(Effect::Send(ClientCommand::FetchPeerKeys(target.clone())));
    }
    if !model.state.nickname_cache.contains_key(target.as_str()) {
        fx.push(Effect::Send(ClientCommand::RequestProfile(target.clone())));
    }
    fx.push(Effect::ScrollToBottom);
    proof {
        let ghost a = effect_if(
            !old(model).state.peer_keys@.contains_key(target@),
            Effect::Send(ClientCommand::FetchPeerKeys(target)),
        );
        let ghost b = effect_if(
            !old(model).state.nickname_cache@.contains_key(target@),
            Effect::Send(ClientCommand::RequestProfile(target)),
        );
        assert(fx@ =~= a + b + seq![Effect::ScrollToBottom]);
    }
    fx
}

/// The screen with the chat's input set to `v`; other screens stay.
pub open spec fn screen_with_chat_input(s: Screen, v: String) -> Screen {
    match s {
        Screen::ChatView { target, .. } => Screen::ChatView { target, input: v },
        other => other,
    }
}

/// The screen with the new-chat input set to `v`; other screens stay.
pub open spec fn screen_with_new_chat_input(s: Screen, v: String) -> Screen {
    match s {
        Screen::NewChat { .. } => Screen::NewChat { input: v },
        other => other,
    }
}

/// Sets the text being written in the open chat.
pub fn input_changed(model: &mut Model, v: String) -> (fx: Vec<Effect>)
    requires
        old(model).wf(),
    ensures
        final(model).wf(),
        *final(model) == crate::update::auth::with_screen(
            *old(model),
            screen_with_chat_input(old(model).state.screen, v),
        ),
        fx@.len() == 0,
{
    match &mut model.state.screen {
        Screen::ChatView { input, .. } => {
            *input = v;
        },
        _ => {},
    }
    Vec::new()
}

/// Shows the new-chat screen with an empty input and clears the status line.
pub fn open_new(model: &mut Model) -> (fx: Vec<Effect>)
    requires
        old(model).wf(),
    ensures
        final(model).wf(),
        crate::update::auth::only_screen_status_changed(*old(model), *final(model)),
        final(model).state.screen matches Screen::NewChat { input } && input@.len() == 0,
        final(model).state.status@.len() == 0,
        fx@.len() == 0,
{
    model.state.screen = Screen::NewChat { input: String::new() };
    model.state.status = String::new();
    Vec::new()
}

/// Sets the text of the new-chat input.
pub fn new_input_changed(model: &mut Model, v: String) -> (fx: Vec<Effect>)
    requires
        old(model).wf(),
    ensures
        final(model).wf(),
        *final(model) == crate::update::auth::with_screen(
            *old(model),
            screen_with_new_chat_input(old(model).state.screen, v),
        ),
        fx@.len() == 0,
{
    match &mut model.state.screen {
        Screen::NewChat { input } => {
            *input = v;
        },
        _ => {},
    }
    Vec::new()
}

/// What submitting the new-chat screen does.
pub open spec fn post_new_submit(m0: Model, m1: Model, fx: Seq<Effect>) -> bool {
    match m0.state.screen {
        Screen::NewChat { input } => {
            let t = trimmed(input@);
            if t.len() == 0 {
                m1 == m0 && fx.len() == 0
            } else {
                &&& chats_after(m0.state.chats@, m1.state.chats@, should_add_chat(m0.state, t), t)
                &&& m1 == Model {
                    state: AppState { chats: m1.state.chats, screen: m1.state.screen, ..m0.state },
                    selected_chat: m1.selected_chat,
                    ..m0
                }
                &&& m1.selected_chat matches Some(s) && s@ == t
                &&& m1.state.screen matches Screen::ChatView { target, input } && target@ == t
                    && input@.len() == 0
                &&& if m0.state.peer_keys@.contains_key(t) {
                    fx.len() == 0
                } else {
                    &&& fx.len() == 1
                    &&& fx[0] matches Effect::Send(ClientCommand::FetchPeerKeys(x)) && x@ == t
                }
            }
        },
        _ => m1 == m0 && fx.len() == 0,
    }
}

/// Opens the chat with the trimmed text of the new-chat input, unless it is
/// empty.
pub fn new_submit(model: &mut Model) -> (fx: Vec<Effect>)
    requires
        old(model).wf(),
    ensures
        final(model).wf(),
        post_new_submit(*old(model), *final(model), fx@),
{
    let mut fx: Vec<Effect> = Vec::new();
    let target = match &model.state.screen {
        Screen::NewChat { input } => trim(input.as_str()),
        _ => {
            return fx;
        },
    };
    if target.as_str().is_empty() {
        return fx;
    }
    let add = !contains_name(&model.state.chats, target.as_str()) && match &model.state.username {
        None => true,
        Some(u) => !same_text(u.as_str(), target.as_str()),
    };
    if add {
        model.state.remember_chat(target.clone());
    }
    model.selected_chat = Some(target.clone());
    model.state.screen = Screen::ChatView { target: target.clone(), input: String::new() };
    if !model.state.peer_keys.contains_key(target.as_str()) {
        fx.push(Effect::Send(ClientCommand::FetchPeerKeys(target)));
    }
    fx
}

/// Returns to the chat list and clears the status line.
pub fn new_cancel(model: &mut Model) -> (fx: Vec<Effect>)
    requires
        old(model).wf(),
    ensures
        final(model).wf(),
        crate::update::auth::only_screen_status_changed(*old(model), *final(model)),
        final(model).state.screen == Screen::ChatList,
        final(model).state.status@.len() == 0,
        fx@.len() == 0,
{
    model.state.screen = Screen::ChatList;
    model.state.status = String::new();
    Vec::new()
}

/// What handing `content` to the open chat does: the content goes out for
/// sealing when the peer's keys are known, else the keys are asked for.
pub open spec fn post_send_content(m0: Model, m1: Model, fx: Seq<Effect>, content: MessageContent) -> bool {
    match m0.state.screen {
        Screen::ChatView { target, .. } => {
            if m0.state.username is Some {
                if m0.state.peer_keys@.contains_key(target@) {
                    m1 == m0 && fx == seq![Effect::Seal { target, content }]
                } else {
                    &&& only_status_changed(m0, m1)
                    &&& m1.state.status@ == no_peer_keys()
                    &&& fx == seq![Effect::Send(ClientCommand::FetchPeerKeys(target))]
                }
            } else {
                m1 == m0 && fx.len() == 0
            }
        },
        _ => m1 == m0 && fx.len() == 0,
    }
}

fn send_message_content(model: &mut Model, content: MessageContent) -> (fx: Vec<Effect>)
    requires
        old(model).wf(),
    ensures
        final(model).wf(),
        post_send_content(*old(model), *final(model), fx@, content),
{
    let mut fx: Vec<Effect> = Vec::new();
    let target = match &model.state.screen {
        Screen::ChatView { target, .. } => target.clone(),
        _ => {
            return fx;
        },
    };
    if model.state.username.is_none() {
        return fx;
    }
    if model.state.peer_keys.contains_key(target.as_str()) {
        fx.push(Effect::Seal { target, content });
    } else {
        model.state.status = "Нет ключей собеседника".to_owned();
        proof { reveal_strlit("Нет ключей собеседника"); }
        fx.push(Effect::Send(ClientCommand::FetchPeerKeys(target)));
    }
    fx
}

/// The text in the open chat's input; empty on other screens.
pub open spec fn chat_input_text(s: Screen) -> Seq<char> {
    match s {
        Screen::ChatView { input, .. } => input@,
        _ => Seq::empty(),
    }
}

/// What the send button does.
pub open spec fn post_send(m0: Model, m1: Model, fx: Seq<Effect>) -> bool {
    &&& fx.len() >= 1
    &&& fx.last() == Effect::ScrollToBottom
    &&& if is_blank(chat_input_text(m0.state.screen)) {
        m1 == m0 && fx.len() == 1
    } else {
        m0.state.screen matches Screen::ChatView { input, .. } && post_send_content(
            m0,
            m1,
            fx.drop_last(),
            MessageContent::Text(input),
        )
    }
}

/// Sends the text of the open chat's input unless it is blank, then scrolls
/// to the end.
pub fn send(model: &mut Model) -> (fx: Vec<Effect>)
    requires
        old(model).wf(),
    ensures
        final(model).wf(),
        post_send(*old(model), *final(model), fx@),
{
    let input_text = match &model.state.screen {
        Screen::ChatView { input, .. } => input.clone(),
        _ => String::new(),
    };
    let mut fx: Vec<Effect> = Vec::new();
    if !blank(input_text.as_str()) {
        fx = send_message_content(model, MessageContent::Text(input_text));
    }
    let ghost before = fx@;
    fx.push(Effect::ScrollToBottom);
    assert(fx@.drop_last() =~= before);
    fx
}

/// Sends an image in the open chat, then scrolls to the end.
pub fn send_image(model: &mut Model, mime: String, data: String) -> (fx: Vec<Effect>)
    requires
        old(model).wf(),
    ensures
        final(model).wf(),
        fx@.len() >= 1,
        fx@.last() == Effect::ScrollToBottom,
        post_send_content(
            *old(model),
            *final(model),
            fx@.drop_last(),
            MessageContent::Image { mime_type: mime, base64_data: data },
        ),
{
    let mut fx = send_message_content(model, MessageContent::Image { mime_type: mime, base64_data: data });
    let ghost before = fx@;
    fx.push(Effect::ScrollToBottom);
    assert(fx@.drop_last() =~= before);
    fx
}

/// The open chat's screen after a text was sent from it: its input is empty.
pub open spec fn input_cleared(s0: Screen, s1: Screen, to: Seq<char>) -> bool {
    match s0 {
        Screen::ChatView { target, .. } => if target@ == to {
            s1 matches Screen::ChatView { target: t, input } && t == target && input@.len() == 0
        } else {
            s1 == s0
        },
        other => s1 == other,
    }
}

/// What the outcome of sealing a content does.
pub open spec fn post_sealed(
    m0: Model,
    m1: Model,
    fx: Seq<Effect>,
    target: String,
    content: MessageContent,
    outcome: SealOutcome,
    now: u64,
) -> bool {
    match outcome {
        SealOutcome::NoChatKey => {
            &&& only_status_changed(m0, m1)
            &&& m1.state.status@ == no_peer_keys()
            &&& fx == seq![Effect::Send(ClientCommand::FetchPeerKeys(target))]
        },
        SealOutcome::SerializeFailed => {
            &&& only_status_changed(m0, m1)
            &&& m1.state.status@ == serialize_failed()
            &&& fx.len() == 0
        },
        SealOutcome::EncryptFailed => {
            &&& only_status_changed(m0, m1)
            &&& m1.state.status@ == encrypt_failed()
            &&& fx.len() == 0
        },
        SealOutcome::Sealed { ciphertext, nonce, signature } => match m0.state.username {
            Some(user) => {
                let msg = m1.state.messages@.last();
                &&& m1.state.messages@.len() == m0.state.messages@.len() + 1
                &&& m1.state.messages@.drop_last() == m0.state.messages@
                &&& is_v4_id(msg.id)
                &&& msg.from == user
                &&& msg.to == target
                &&& msg.timestamp == now
                &&& msg.ciphertext@ == ciphertext@
                &&& msg.nonce@ == nonce@
                &&& msg.signature@ == signature@
                &&& msg.salt@.len() == 0
                &&& fx.len() == 2
                &&& fx[0] matches Effect::SaveMessage(a) && a@ == msg@
                &&& fx[1] matches Effect::Send(ClientCommand::Send(b)) && b@ == msg@
                &&& m1 == Model {
                    state: AppState { messages: m1.state.messages, screen: m1.state.screen, ..m0.state },
                    ..m0
                }
                &&& if content is Text {
                    input_cleared(m0.state.screen, m1.state.screen, target@)
                } else {
                    m1.state.screen == m0.state.screen
                }
            },
            None => m1 == m0 && fx.len() == 0,
        },
    }
}

/// Takes the outcome of sealing `content` for `target`: a sealed message is
/// stored, saved and sent; a failure is reported in the status line.
pub fn sealed(model: &mut Model, target: String, content: MessageContent, outcome: SealOutcome, now: u64) -> (fx: Vec<
    Effect,
>)
    requires
        old(model).wf(),
    ensures
        final(model).wf(),
        post_sealed(*old(model), *final(model), fx@, target, content, outcome, now),
{
    let mut fx: Vec<Effect> = Vec::new();
    match outcome {
        SealOutcome::NoChatKey => {
            model.state.status = "Нет ключей собеседника".to_owned();
            proof { reveal_strlit("Нет ключей собеседника"); }
            fx.push(Effect::Send(ClientCommand::FetchPeerKeys(target)));
        },
        SealOutcome::SerializeFailed => {
            model.state.status = "Ошибка сериализации".to_owned();
            proof { reveal_strlit("Ошибка сериализации"); }
        },
        SealOutcome::EncryptFailed => {
            model.state.status = "Ошибка шифрования".to_owned();
            proof { reveal_strlit("Ошибка шифрования"); }
        },
        SealOutcome::Sealed { ciphertext, nonce, signature } => {
            let user = match &model.state.username {
                Some(u) => u.clone(),
                None => {
                    return fx;
                },
            };
            let open_is_target = match &model.state.screen {
                Screen::ChatView { target: t, .. } => crate::text::same_text(t.as_str(), target.as_str()),
                _ => false,
            };
            let msg = AppMessage {
                id: random_message_id(),
                from: user,
                to: target,
                timestamp: now,
                ciphertext,
                nonce,
                signature,
                salt: Vec::new(),
            };
            let saved = msg.copy();
            let sent = msg.copy();
            model.state.messages.push(msg);
            assert(model.state.messages@.drop_last() =~= old(model).state.messages@);
            fx.push(Effect::SaveMessage(saved));
            fx.push(Effect::Send(ClientCommand::Send(sent)));
            let is_text = match &content {
                MessageContent::Text(_) => true,
                _ => false,
            };
            if is_text && open_is_target {
                match &mut model.state.screen {
                    Screen::ChatView { input, .. } => {
                        *input = String::new();
                    },
                    _ => {},
                }
            }
        },
    }
    fx
}

/// Asks the server for the keys of `t`.
pub fn fetch_keys(model: &mut Model, t: String) -> (fx: Vec<Effect>)
    requires
        old(model).wf(),
    ensures
        final(model).wf(),
        *final(model) == *old(model),
        fx@ == seq![Effect::Send(ClientCommand::FetchPeerKeys(t))],
{
    let mut fx: Vec<Effect> = Vec::new();
    fx.push(Effect::Send(ClientCommand::FetchPeerKeys(t)));
    fx
}

/// Remembers the keys of `target` that the server sent.
pub fn keys_received(model: &mut Model, target: String, ed_public: Vec<u8>, x25519_public: Vec<u8>) -> (fx: Vec<
    Effect,
>)
    requires
        old(model).wf(),
    ensures
        final(model).wf(),
        final(model).state.peer_keys@ == old(model).state.peer_keys@.insert(
            target@,
            PeerKeysView { ed_public: ed_public@, x25519_public: x25519_public@ },
        ),
        final(model).state.peer_public_keys@ == old(model).state.peer_public_keys@.insert(target@, ed_public@),
        *final(model) == (Model {
            state: AppState {
                peer_keys: final(model).state.peer_keys,
                peer_public_keys: final(model).state.peer_public_keys,
                ..old(model).state
            },
            ..*old(model)
        }),
        fx@.len() == 0,
{
    model.state.cache_peer_keys(target, ed_public, x25519_public);
    Vec::new()
}

/// The length in bytes of the UTF-8 encoding of `s`, as `str::len` gives it.
pub open spec fn byte_len(s: Seq<char>) -> usize {
    encode_utf8(s).len() as usize
}

/// What typing in the search box does.
pub open spec fn post_search_input(m0: Model, m1: Model, fx: Seq<Effect>, v: String) -> bool {
    &&& m1 == Model { search_query: v, search_matches: m1.search_matches, ..m0 }
    &&& if byte_len(v@) >= 2 {
        m1.search_matches == m0.search_matches && fx == seq![Effect::Send(ClientCommand::SearchPrefix(v))]
    } else {
        m1.search_matches@.len() == 0 && fx.len() == 0
    }
}

/// Sets the search text; from two bytes on it asks the server for users
/// whose names begin with it, below that it clears the results.
pub fn search_input_changed(model: &mut Model, v: String) -> (fx: Vec<Effect>)
    requires
        old(model).wf(),
    ensures
        final(model).wf(),
        post_search_input(*old(model), *final(model), fx@, v),
{
    let mut fx: Vec<Effect> = Vec::new();
    model.search_query = v.clone();
    if v.as_str().len() >= 2 {
        fx.push(Effect::Send(ClientCommand::SearchPrefix(v)));
    } else {
        model.search_matches = Vec::new();
    }
    fx
}

/// Searches again for the current text unless it is blank.
pub fn search_submit(model: &mut Model) -> (fx: Vec<Effect>)
    requires
        old(model).wf(),
    ensures
        final(model).wf(),
        *final(model) == *old(model),
        fx@ == effect_if(
            !is_blank(old(model).search_query@),
            Effect::Send(ClientCommand::SearchPrefix(old(model).search_query)),
        ),
{
    let mut fx: Vec<Effect> = Vec::new();
    if !blank(model.search_query.as_str()) {
        fx.push(Effect::Send(ClientCommand::SearchPrefix(model.search_query.clone())));
    }
    proof {
        assert(fx@ =~= effect_if(
            !is_blank(old(model).search_query@),
            Effect::Send(ClientCommand::SearchPrefix(old(model).search_query)),
        ));
    }
    fx
}

/// Shows the users that the server found.
pub fn search_results(model: &mut Model, matches: Vec<UserInfo>) -> (fx: Vec<Effect>)
    requires
        old(model).wf(),
    ensures
        final(model).wf(),
        *final(model) == (Model { search_matches: matches, ..*old(model) }),
        fx@.len() == 0,
{
    model.search_matches = matches;
    Vec::new()
}

/// What choosing a search result does: the search is cleared and the chat
/// with `name` opens.
pub open spec fn post_search_pick(m0: Model, m1: Model, fx: Seq<Effect>, name: String) -> bool {
    &&& m1 == Model { search_query: m1.search_query, search_matches: m1.search_matches, ..m0 }
    &&& m1.search_query@.len() == 0
    &&& m1.search_matches@.len() == 0
    &&& fx == seq![Effect::Dispatch(UiMessage::ChatSelected(name))]
}

/// Clears the search and opens the chat with the chosen user.
pub fn search_result_selected(model: &mut Model, name: String) -> (fx: Vec<Effect>)
    requires
        old(model).wf(),
    ensures
        final(model).wf(),
        post_search_pick(*old(model), *final(model), fx@, name),
{
    model.search_query = String::new();
    model.search_matches = Vec::new();
    let mut fx: Vec<Effect> = Vec::new();
    fx.push(Effect::Dispatch(UiMessage::ChatSelected(name)));
    fx
}

/// When the searched user exists, clears the search and opens the chat with
/// them.
pub fn search_result(model: &mut Model, username: String, exists: bool) -> (fx: Vec<Effect>)
    requires
        old(model).wf(),
    ensures
        final(model).wf(),
        exists ==> post_search_pick(*old(model), *final(model), fx@, username),
        !exists ==> *final(model) == *old(model) && fx@.len() == 0,
{
    if exists {
        return search_result_selected(model, username);
    }
    Vec::new()
}

}
