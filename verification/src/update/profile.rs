//! Showing and editing profiles.
use vstd::prelude::*;
use crate::model::{Effect, ImagePurpose, Model};
use crate::network::ClientCommand;
use crate::protocol::{UserInfo, copy_opt_string};
use crate::state::{AppState, Screen, post_cache_profile};
use crate::update::auth::with_screen;

verus! {

/// `m1` is `m0` with the profile `user` cached.
pub open spec fn model_caches_profile(m0: Model, m1: Model, user: UserInfo) -> bool {
    &&& post_cache_profile(m0.state, m1.state, user)
    &&& m1 == Model { state: m1.state, ..m0 }
}

/// Shows the profile of `username` and asks the server for it.
pub fn view(model: &mut Model, username: String) -> (fx: Vec<Effect>)
    requires
        old(model).wf(),
    ensures
        final(model).wf(),
        *final(model) == with_screen(*old(model), Screen::UserProfile { username }),
        fx@ == seq![Effect::Send(ClientCommand::RequestProfile(username))],
{
    model.state.screen = Screen::UserProfile { username: username.clone() };
    let mut fx: Vec<Effect> = Vec::new();
    fx.push(Effect::Send(ClientCommand::RequestProfile(username)));
    fx
}

/// Caches a profile that the server sent.
pub fn received(model: &mut Model, user: UserInfo) -> (fx: Vec<Effect>)
    requires
        old(model).wf(),
    ensures
        final(model).wf(),
        model_caches_profile(*old(model), *final(model), user),
        fx@.len() == 0,
{
    model.state.cache_profile(&user);
    Vec::new()
}

/// Returns from a profile to the chat list.
pub fn close(model: &mut Model) -> (fx: Vec<Effect>)
    requires
        old(model).wf(),
    ensures
        final(model).wf(),
        *final(model) == with_screen(*old(model), Screen::ChatList),
        fx@.len() == 0,
{
    model.state.screen = Screen::ChatList;
    Vec::new()
}

/// The cached bio of the signed-in user, or nothing.
pub open spec fn own_bio(st: AppState) -> Seq<char> {
    match st.username {
        Some(u) => if st.bio_cache@.contains_key(u@) {
            st.bio_cache@[u@]
        } else {
            Seq::empty()
        },
        None => Seq::empty(),
    }
}

/// The cached avatar of the signed-in user, or none.
pub open spec fn own_avatar(st: AppState) -> Option<Seq<char>> {
    match st.username {
        Some(u) => if st.avatar_cache@.contains_key(u@) {
            st.avatar_cache@[u@]
        } else {
            None
        },
        None => None,
    }
}

/// Opens the profile editor filled with the own cached bio and avatar.
pub fn open_edit(model: &mut Model) -> (fx: Vec<Effect>)
    requires
        old(model).wf(),
    ensures
        final(model).wf(),
        final(model).state.edit_bio@ == own_bio(old(model).state),
        final(model).state.edit_avatar_base64.deep_view() == own_avatar(old(model).state),
        final(model).state.screen == Screen::EditProfile,
        *final(model) == (Model {
            state: AppState {
                edit_bio: final(model).state.edit_bio,
                edit_avatar_base64: final(model).state.edit_avatar_base64,
                screen: Screen::EditProfile,
                ..old(model).state
            },
            ..*old(model)
        }),
        fx@.len() == 0,
{
    let (bio, avatar) = match &model.state.username {
        Some(u) => {
            let bio = match model.state.bio_cache.get(u.as_str()) {
                Some(b) => b.clone(),
                None => String::new(),
            };
            let avatar = match model.state.avatar_cache.get(u.as_str()) {
                Some(a) => copy_opt_string(a),
                None => None,
            };
            (bio, avatar)
        },
        None => (String::new(), None),
    };
    model.state.edit_bio = bio;
    model.state.edit_avatar_base64 = avatar;
    model.state.screen = Screen::EditProfile;
    Vec::new()
}

/// Sets the bio being edited.
pub fn bio_changed(model: &mut Model, v: String) -> (fx: Vec<Effect>)
    requires
        old(model).wf(),
    ensures
        final(model).wf(),
        *final(model) == (Model { state: AppState { edit_bio: v, ..old(model).state }, ..*old(model) }),
        fx@.len() == 0,
{
    model.state.edit_bio = v;
    Vec::new()
}

/// Starts loading the picked file as the new avatar, unless no file was
/// picked.
pub fn avatar_picked(model: &mut Model, path: String) -> (fx: Vec<Effect>)
    requires
        old(model).wf(),
    ensures
        final(model).wf(),
        *final(model) == *old(model),
        path@.len() == 0 ==> fx@.len() == 0,
        path@.len() != 0 ==> fx@ == seq![
            Effect::LoadImage { path, max_dim: 256, purpose: ImagePurpose::Avatar },
        ],
{
    let mut fx: Vec<Effect> = Vec::new();
    if path.as_str().is_empty() {
        return fx;
    }
    fx.push(Effect::LoadImage { path, max_dim: 256, purpose: ImagePurpose::Avatar });
    fx
}

/// Takes the encoded new avatar into the editor.
pub fn avatar_ready(model: &mut Model, b64: String) -> (fx: Vec<Effect>)
    requires
        old(model).wf(),
    ensures
        final(model).wf(),
        *final(model) == (Model {
            state: AppState { edit_avatar_base64: Some(b64), ..old(model).state },
            ..*old(model)
        }),
        fx@.len() == 0,
{
    model.state.edit_avatar_base64 = Some(b64);
    Vec::new()
}

pub open spec fn profile_updated_status() -> Seq<char> {
    "Профиль обновлён"@
}

/// What saving the profile editor does.
pub open spec fn post_save(m0: Model, m1: Model, fx: Seq<Effect>) -> bool {
    let st = m0.state;
    &&& fx == seq![
        Effect::Send(
            ClientCommand::UpdateProfile { bio: Some(st.edit_bio), avatar_base64: st.edit_avatar_base64 },
        ),
    ]
    &&& match st.username {
        Some(u) => {
            &&& m1.state.bio_cache@ == st.bio_cache@.insert(u@, st.edit_bio@)
            &&& m1.state.avatar_cache@ == st.avatar_cache@.insert(u@, st.edit_avatar_base64.deep_view())
        },
        None => {
            &&& m1.state.bio_cache == st.bio_cache
            &&& m1.state.avatar_cache == st.avatar_cache
        },
    }
    &&& m1.state.screen == Screen::ChatList
    &&& m1.state.status@ == profile_updated_status()
    &&& m1 == Model {
        state: AppState {
            bio_cache: m1.state.bio_cache,
            avatar_cache: m1.state.avatar_cache,
            screen: Screen::ChatList,
            status: m1.state.status,
            ..st
        },
        ..m0
    }
}

/// Sends the edited bio and avatar to the server, caches them as the own
/// profile and returns to the chat list.
pub fn save(model: &mut Model) -> (fx: Vec<Effect>)
    requires
        old(model).wf(),
    ensures
        final(model).wf(),
        post_save(*old(model), *final(model), fx@),
{
    let bio = model.state.edit_bio.clone();
    let avatar = copy_opt_string(&model.state.edit_avatar_base64);
    let mut fx: Vec<Effect> = Vec::new();
    fx.push(
        Effect::Send(
            ClientCommand::UpdateProfile { bio: Some(bio.clone()), avatar_base64: copy_opt_string(&avatar) },
        ),
    );
    match &model.state.username {
        Some(u) => {
            let u2 = u.clone();
            model.state.bio_cache.insert(u2.clone(), bio);
            model.state.avatar_cache.insert(u2, avatar);
        },
        None => {},
    }
    model.state.screen = Screen::ChatList;
    model.state.status = "Профиль обновлён".to_owned();
    proof { reveal_strlit("Профиль обновлён"); }
    fx
}

/// Caches the own profile that the server sent after an update.
pub fn updated(model: &mut Model, user: UserInfo) -> (fx: Vec<Effect>)
    requires
        old(model).wf(),
    ensures
        final(model).wf(),
        model_caches_profile(*old(model), *final(model), user),
        fx@.len() == 0,
{
    model.state.cache_profile(&user);
    Vec::new()
}

}
