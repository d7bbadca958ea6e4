//! Panels, the theme, the server address, signing out and images.
use vstd::prelude::*;
use crate::model::{Effect, ImagePurpose, Model, UiMessage};
use crate::network::ClientCommand;
use crate::state::{AppState, PeerKeysView, Screen, logged_out_status};

verus! {

/// Switches between the light and the dark theme.
pub fn toggle_theme(model: &mut Model) -> (fx: Vec<Effect>)
    requires
        old(model).wf(),
    ensures
        final(model).wf(),
        *final(model) == (Model { is_light_theme: !old(model).is_light_theme, ..*old(model) }),
        fx@.len() == 0,
{
    model.is_light_theme = !model.is_light_theme;
    Vec::new()
}

/// Opens or closes the menu drawer; opening it closes the settings panel.
pub fn toggle_hamburger(model: &mut Model) -> (fx: Vec<Effect>)
    requires
        old(model).wf(),
    ensures
        final(model).wf(),
        *final(model) == (Model {
            hamburger_open: !old(model).hamburger_open,
            show_settings: if !old(model).hamburger_open { false } else { old(model).show_settings },
            ..*old(model)
        }),
        fx@.len() == 0,
{
    model.hamburger_open = !model.hamburger_open;
    if model.hamburger_open {
        model.show_settings = false;
    }
    Vec::new()
}

/// Opens or closes the settings panel; opening it closes the menu drawer.
pub fn toggle_settings(model: &mut Model) -> (fx: Vec<Effect>)
    requires
        old(model).wf(),
    ensures
        final(model).wf(),
        *final(model) == (Model {
            show_settings: !old(model).show_settings,
            hamburger_open: if !old(model).show_settings { false } else { old(model).hamburger_open },
            ..*old(model)
        }),
        fx@.len() == 0,
{
    model.show_settings = !model.show_settings;
    if model.show_settings {
        model.hamburger_open = false;
    }
    Vec::new()
}

/// Takes a new server address: the connection is told to switch to it, and
/// the address is then stored.
pub fn server_address_changed(model: &mut Model, v: String) -> (fx: Vec<Effect>)
    requires
        old(model).wf(),
    ensures
        final(model).wf(),
        *final(model) == (Model { state: AppState { server_address: v, ..old(model).state }, ..*old(model) }),
        fx@ == seq![
            Effect::Send(ClientCommand::UpdateServerAddress(v)),
            Effect::Dispatch(UiMessage::SaveServerAddress),
        ],
{
    model.state.server_address = v.clone();
    let mut fx: Vec<Effect> = Vec::new();
    fx.push(Effect::Send(ClientCommand::UpdateServerAddress(v)));
    fx.push(Effect::Dispatch(UiMessage::SaveServerAddress));
    fx
}

/// Stores the current server address.
pub fn save_server_address(model: &mut Model) -> (fx: Vec<Effect>)
    requires
        old(model).wf(),
    ensures
        final(model).wf(),
        *final(model) == *old(model),
        fx@ == seq![Effect::SaveServerAddress(old(model).state.server_address)],
{
    let mut fx: Vec<Effect> = Vec::new();
    fx.push(Effect::SaveServerAddress(model.state.server_address.clone()));
    fx
}

/// What signing out does.
pub open spec fn post_logout(m0: Model, m1: Model, fx: Seq<Effect>) -> bool {
    &&& m1.selected_chat is None
    &&& m1.state.username is None
    &&& m1.state.session_id is None
    &&& m1.state.nickname is None
    &&& m1.state.chats@.len() == 0
    &&& m1.state.messages@.len() == 0
    &&& m1.state.status@ == logged_out_status()
    &&& m1.state.screen == (Screen::MainMenu { selection: 0 })
    &&& m1.state.peer_keys@ == Map::<Seq<char>, PeerKeysView>::empty()
    &&& m1.state.peer_public_keys@ == Map::<Seq<char>, Seq<u8>>::empty()
    &&& m1 == Model {
        state: AppState {
            username: None,
            session_id: None,
            nickname: None,
            chats: m1.state.chats,
            messages: m1.state.messages,
            status: m1.state.status,
            screen: Screen::MainMenu { selection: 0 },
            peer_keys: m1.state.peer_keys,
            peer_public_keys: m1.state.peer_public_keys,
            ..m0.state
        },
        selected_chat: None,
        ..m0
    }
    &&& fx == seq![Effect::ClearLocalSession]
}

/// Signs out and forgets the stored session.
pub fn logout(model: &mut Model) -> (fx: Vec<Effect>)
    requires
        old(model).wf(),
    ensures
        final(model).wf(),
        post_logout(*old(model), *final(model), fx@),
{
    model.selected_chat = None;
    model.state.logout();
    let mut fx: Vec<Effect> = Vec::new();
    fx.push(Effect::ClearLocalSession);
    fx
}

/// Lets the user pick an image.
pub fn pick_image(model: &mut Model) -> (fx: Vec<Effect>)
    requires
        old(model).wf(),
    ensures
        final(model).wf(),
        *final(model) == *old(model),
        fx@ == seq![Effect::PickImage],
{
    let mut fx: Vec<Effect> = Vec::new();
    fx.push(Effect::PickImage);
    fx
}

/// Starts loading the picked image for sending, unless no file was picked.
pub fn image_picked(model: &mut Model, path: String) -> (fx: Vec<Effect>)
    requires
        old(model).wf(),
    ensures
        final(model).wf(),
        *final(model) == *old(model),
        path@.len() == 0 ==> fx@.len() == 0,
        path@.len() != 0 ==> fx@ == seq![
            Effect::LoadImage { path, max_dim: 800, purpose: ImagePurpose::Attachment },
        ],
{
    let mut fx: Vec<Effect> = Vec::new();
    if path.as_str().is_empty() {
        return fx;
    }
    fx.push(Effect::LoadImage { path, max_dim: 800, purpose: ImagePurpose::Attachment });
    fx
}

/// Shows the image of message `id` full size.
pub fn expand_image(model: &mut Model, id: u128) -> (fx: Vec<Effect>)
    requires
        old(model).wf(),
    ensures
        final(model).wf(),
        *final(model) == (Model { expanded_image_id: Some(id), ..*old(model) }),
        fx@.len() == 0,
{
    model.expanded_image_id = Some(id);
    Vec::new()
}

/// Closes the full-size image.
pub fn close_expanded_image(model: &mut Model) -> (fx: Vec<Effect>)
    requires
        old(model).wf(),
    ensures
        final(model).wf(),
        *final(model) == (Model { expanded_image_id: None, ..*old(model) }),
        fx@.len() == 0,
{
    model.expanded_image_id = None;
    Vec::new()
}

/// Sets the status line.
pub fn status_update(model: &mut Model, status: String) -> (fx: Vec<Effect>)
    requires
        old(model).wf(),
    ensures
        final(model).wf(),
        *final(model) == (Model { state: AppState { status, ..old(model).state }, ..*old(model) }),
        fx@.len() == 0,
{
    model.state.status = status;
    Vec::new()
}

}
