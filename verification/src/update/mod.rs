//! The update of the interface, one module per part of it, and the dispatch
//! of each message to its handler.
pub mod auth;
pub mod chat;
pub mod network;
pub mod profile;
pub mod ui;

use vstd::prelude::*;
use crate::model::{Effect, ImagePurpose, Model, UiMessage, effect_if};
use crate::network::ClientCommand;
use crate::protocol::MessageContent;
use crate::state::{AppState, PeerKeysView, Screen};
use crate::text::is_blank;

verus! {

/// `m1` is `m0` with the peer's keys cached.
pub open spec fn model_caches_keys(m0: Model, m1: Model, target: String, ed: Seq<u8>, x: Seq<u8>) -> bool {
    &&& m1.state.peer_keys@ == m0.state.peer_keys@.insert(
        target@,
        PeerKeysView { ed_public: ed, x25519_public: x },
    )
    &&& m1.state.peer_public_keys@ == m0.state.peer_public_keys@.insert(target@, ed)
    &&& m1 == Model {
        state: AppState {
            peer_keys: m1.state.peer_keys,
            peer_public_keys: m1.state.peer_public_keys,
            ..m0.state
        },
        ..m0
    }
}

/// `m1` is `m0` on an empty sign-in form (the registration form for entry 1).
pub open spec fn model_opens_form(m0: Model, m1: Model, idx: usize) -> bool {
    &&& auth::only_screen_status_changed(m0, m1)
    &&& m1.state.screen matches Screen::AuthForm { is_register, username, nickname, password, focused }
        && is_register == (idx == 1) && username@.len() == 0 && nickname@.len() == 0 && password@.len() == 0
        && focused == crate::state::FocusedField::Username
    &&& m1.state.status@.len() == 0
}

/// `m1` is `m0` on the screen `s` with an empty status line.
pub open spec fn model_on_screen_quiet(m0: Model, m1: Model, s: Screen) -> bool {
    &&& auth::only_screen_status_changed(m0, m1)
    &&& m1.state.screen == s
    &&& m1.state.status@.len() == 0
}

/// `fx` loads the image at `path` for `purpose`, unless the path is empty.
pub open spec fn loads_image(fx: Seq<Effect>, path: String, max_dim: u32, purpose: ImagePurpose) -> bool {
    if path@.len() == 0 {
        fx.len() == 0
    } else {
        fx == seq![Effect::LoadImage { path, max_dim, purpose }]
    }
}

/// What one message does to the model and which work it leaves, at time
/// `now`.
pub open spec fn post_update(m0: Model, m1: Model, fx: Seq<Effect>, msg: UiMessage, now: u64) -> bool {
    match msg {
        UiMessage::Network(ev) => network::post_handle(m0, m1, fx, ev, now),
        UiMessage::Tick => m1 == m0 && fx == seq![Effect::PollNetwork],
        UiMessage::AuthNicknameChanged(v) => m1 == auth::with_screen(
            m0,
            auth::screen_with_nickname(m0.state.screen, v),
        ) && fx.len() == 0,
        UiMessage::AuthUsernameChanged(v) => m1 == auth::with_screen(
            m0,
            auth::screen_with_username(m0.state.screen, v),
        ) && fx.len() == 0,
        UiMessage::AuthPasswordChanged(v) => m1 == auth::with_screen(
            m0,
            auth::screen_with_password(m0.state.screen, v),
        ) && fx.len() == 0,
        UiMessage::AuthSubmit => auth::post_submit(m0, m1, fx),
        UiMessage::AuthTogglePasswordVisibility => m1 == (Model {
            password_visible: !m0.password_visible,
            ..m0
        }) && fx.len() == 0,
        UiMessage::AuthBack => model_on_screen_quiet(m0, m1, Screen::MainMenu { selection: 0 })
            && fx.len() == 0,
        UiMessage::MainMenuSelect(idx) => model_opens_form(m0, m1, idx) && fx.len() == 0,
        UiMessage::ChatSelected(t) => chat::post_select(m0, m1, fx, t),
        UiMessage::ChatViewInputChanged(v) => m1 == auth::with_screen(
            m0,
            chat::screen_with_chat_input(m0.state.screen, v),
        ) && fx.len() == 0,
        UiMessage::ChatViewSend => chat::post_send(m0, m1, fx),
        UiMessage::OpenNewChatScreen => {
            &&& auth::only_screen_status_changed(m0, m1)
            &&& m1.state.screen matches Screen::NewChat { input } && input@.len() == 0
            &&& m1.state.status@.len() == 0
            &&& fx.len() == 0
        },
        UiMessage::NewChatInputChanged(v) => m1 == auth::with_screen(
            m0,
            chat::screen_with_new_chat_input(m0.state.screen, v),
        ) && fx.len() == 0,
        UiMessage::NewChatSubmit => chat::post_new_submit(m0, m1, fx),
        UiMessage::NewChatCancel => model_on_screen_quiet(m0, m1, Screen::ChatList) && fx.len() == 0,
        UiMessage::ReadyToSendImage(mime, data) => {
            &&& fx.len() >= 1
            &&& fx.last() == Effect::ScrollToBottom
            &&& chat::post_send_content(
                m0,
                m1,
                fx.drop_last(),
                MessageContent::Image { mime_type: mime, base64_data: data },
            )
        },
        UiMessage::FetchKeysFor(t) => m1 == m0 && fx == seq![
            Effect::Send(ClientCommand::FetchPeerKeys(t)),
        ],
        UiMessage::KeysReceived { target, ed_public, x25519_public } => model_caches_keys(
            m0,
            m1,
            target,
            ed_public@,
            x25519_public@,
        ) && fx.len() == 0,
        UiMessage::SearchInputChanged(v) => chat::post_search_input(m0, m1, fx, v),
        UiMessage::SearchSubmit => m1 == m0 && fx == effect_if(
            !is_blank(m0.search_query@),
            Effect::Send(ClientCommand::SearchPrefix(m0.search_query)),
        ),
        UiMessage::SearchResultsReceived(matches) => m1 == (Model { search_matches: matches, ..m0 })
            && fx.len() == 0,
        UiMessage::SearchResultSelected(name) => chat::post_search_pick(m0, m1, fx, name),
        UiMessage::SearchResult { username, exists } => if exists {
            chat::post_search_pick(m0, m1, fx, username)
        } else {
            m1 == m0 && fx.len() == 0
        },
        UiMessage::ViewProfile(username) => m1 == auth::with_screen(m0, Screen::UserProfile { username })
            && fx == seq![Effect::Send(ClientCommand::RequestProfile(username))],
        UiMessage::ProfileReceived(user) => profile::model_caches_profile(m0, m1, user) && fx.len() == 0,
        UiMessage::CloseProfile => m1 == auth::with_screen(m0, Screen::ChatList) && fx.len() == 0,
        UiMessage::OpenEditProfile => {
            &&& m1.state.edit_bio@ == profile::own_bio(m0.state)
            &&& m1.state.edit_avatar_base64.deep_view() == profile::own_avatar(m0.state)
            &&& m1 == Model {
                state: AppState {
                    edit_bio: m1.state.edit_bio,
                    edit_avatar_base64: m1.state.edit_avatar_base64,
                    screen: Screen::EditProfile,
                    ..m0.state
                },
                ..m0
            }
            &&& fx.len() == 0
        },
        UiMessage::EditProfileBioChanged(v) => m1 == (Model {
            state: AppState { edit_bio: v, ..m0.state },
            ..m0
        }) && fx.len() == 0,
        UiMessage::EditProfileAvatarPicked(path) => m1 == m0 && loads_image(
            fx,
            path,
            256,
            ImagePurpose::Avatar,
        ),
        UiMessage::EditProfileAvatarReady(b64) => m1 == (Model {
            state: AppState { edit_avatar_base64: Some(b64), ..m0.state },
            ..m0
        }) && fx.len() == 0,
        UiMessage::EditProfileSave => profile::post_save(m0, m1, fx),
        UiMessage::ProfileUpdated(user) => profile::model_caches_profile(m0, m1, user) && fx.len() == 0,
        UiMessage::ToggleTheme => m1 == (Model { is_light_theme: !m0.is_light_theme, ..m0 }) && fx.len()
            == 0,
        UiMessage::ToggleHamburgerMenu => m1 == (Model {
            hamburger_open: !m0.hamburger_open,
            show_settings: if !m0.hamburger_open { false } else { m0.show_settings },
            ..m0
        }) && fx.len() == 0,
        UiMessage::ToggleSettings => m1 == (Model {
            show_settings: !m0.show_settings,
            hamburger_open: if !m0.show_settings { false } else { m0.hamburger_open },
            ..m0
        }) && fx.len() == 0,
        UiMessage::ServerAddressChanged(v) => m1 == (Model {
            state: AppState { server_address: v, ..m0.state },
            ..m0
        }) && fx == seq![
            Effect::Send(ClientCommand::UpdateServerAddress(v)),
            Effect::Dispatch(UiMessage::SaveServerAddress),
        ],
        UiMessage::SaveServerAddress => m1 == m0 && fx == seq![
            Effect::SaveServerAddress(m0.state.server_address),
        ],
        UiMessage::Logout => ui::post_logout(m0, m1, fx),
        UiMessage::PickImage => m1 == m0 && fx == seq![Effect::PickImage],
        UiMessage::ImagePicked(path) => m1 == m0 && loads_image(fx, path, 800, ImagePurpose::Attachment),
        UiMessage::ExpandImage(id) => m1 == (Model { expanded_image_id: Some(id), ..m0 }) && fx.len() == 0,
        UiMessage::CloseExpandedImage => m1 == (Model { expanded_image_id: None, ..m0 }) && fx.len() == 0,
        UiMessage::StatusUpdate(status) => m1 == (Model {
            state: AppState { status, ..m0.state },
            ..m0
        }) && fx.len() == 0,
        UiMessage::Sealed { target, content, outcome } => chat::post_sealed(
            m0,
            m1,
            fx,
            target,
            content,
            outcome,
            now,
        ),
    }
}

/// Runs the handler of `msg` at time `now` (seconds since the epoch) and
/// returns the work that it leaves to the surrounding program.
pub fn update(model: &mut Model, msg: UiMessage, now: u64) -> (fx: Vec<Effect>)
    requires
        old(model).wf(),
    ensures
        final(model).wf(),
        post_update(*old(model), *final(model), fx@, msg, now),
{
    match msg {
        UiMessage::Network(ev) => network::handle(model, ev, now),
        UiMessage::Tick => {
            let mut fx: Vec<Effect> = Vec::new();
            fx.push(Effect::PollNetwork);
            fx
        },
        UiMessage::AuthNicknameChanged(v) => auth::nickname_changed(model, v),
        UiMessage::AuthUsernameChanged(v) => auth::username_changed(model, v),
        UiMessage::AuthPasswordChanged(v) => auth::password_changed(model, v),
        UiMessage::AuthSubmit => auth::submit(model),
        UiMessage::AuthTogglePasswordVisibility => auth::toggle_password(model),
        UiMessage::AuthBack => auth::back(model),
        UiMessage::MainMenuSelect(idx) => auth::main_menu_select(model, idx),
        UiMessage::ChatSelected(t) => chat::select(model, t),
        UiMessage::ChatViewInputChanged(v) => chat::input_changed(model, v),
        UiMessage::ChatViewSend => chat::send(model),
        UiMessage::OpenNewChatScreen => chat::open_new(model),
        UiMessage::NewChatInputChanged(v) => chat::new_input_changed(model, v),
        UiMessage::NewChatSubmit => chat::new_submit(model),
        UiMessage::NewChatCancel => chat::new_cancel(model),
        UiMessage::ReadyToSendImage(mime, data) => chat::send_image(model, mime, data),
        UiMessage::FetchKeysFor(t) => chat::fetch_keys(model, t),
        UiMessage::KeysReceived { target, ed_public, x25519_public } => chat::keys_received(
            model,
            target,
            ed_public,
            x25519_public,
        ),
        UiMessage::SearchInputChanged(v) => chat::search_input_changed(model, v),
        UiMessage::SearchSubmit => chat::search_submit(model),
        UiMessage::SearchResultsReceived(matches) => chat::search_results(model, matches),
        UiMessage::SearchResultSelected(name) => chat::search_result_selected(model, name),
        UiMessage::SearchResult { username, exists } => chat::search_result(model, username, exists),
        UiMessage::ViewProfile(username) => profile::view(model, username),
        UiMessage::ProfileReceived(user) => profile::received(model, user),
        UiMessage::CloseProfile => profile::close(model),
        UiMessage::OpenEditProfile => profile::open_edit(model),
        UiMessage::EditProfileBioChanged(v) => profile::bio_changed(model, v),
        UiMessage::EditProfileAvatarPicked(path) => profile::avatar_picked(model, path),
        UiMessage::EditProfileAvatarReady(b64) => profile::avatar_ready(model, b64),
        UiMessage::EditProfileSave => profile::save(model),
        UiMessage::ProfileUpdated(user) => profile::updated(model, user),
        UiMessage::ToggleTheme => ui::toggle_theme(model),
        UiMessage::ToggleHamburgerMenu => ui::toggle_hamburger(model),
        UiMessage::ToggleSettings => ui::toggle_settings(model),
        UiMessage::ServerAddressChanged(v) => ui::server_address_changed(model, v),
        UiMessage::SaveServerAddress => ui::save_server_address(model),
        UiMessage::Logout => ui::logout(model),
        UiMessage::PickImage => ui::pick_image(model),
        UiMessage::ImagePicked(path) => ui::image_picked(model, path),
        UiMessage::ExpandImage(id) => ui::expand_image(model, id),
        UiMessage::CloseExpandedImage => ui::close_expanded_image(model),
        UiMessage::StatusUpdate(status) => ui::status_update(model, status),
        UiMessage::Sealed { target, content, outcome } => chat::sealed(model, target, content, outcome, now),
    }
}

}
