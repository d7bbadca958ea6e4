//! The sign-in and registration screens.
use vstd::prelude::*;
use crate::model::{Effect, Model};
use crate::network::ClientCommand;
use crate::state::{AppState, FocusedField, Screen};
use crate::text::{blank, is_blank};

verus! {

/// The screen with the form's nickname set to `v`; other screens stay.
pub open spec fn screen_with_nickname(s: Screen, v: String) -> Screen {
    match s {
        Screen::AuthForm { is_register, username, password, focused, .. } => Screen::AuthForm {
            is_register,
            username,
            nickname: v,
            password,
            focused,
        },
        other => other,
    }
}

/// The screen with the form's username set to `v`; other screens stay.
pub open spec fn screen_with_username(s: Screen, v: String) -> Screen {
    match s {
        Screen::AuthForm { is_register, nickname, password, focused, .. } => Screen::AuthForm {
            is_register,
            username: v,
            nickname,
            password,
            focused,
        },
        other => other,
    }
}

/// The screen with the form's password set to `v`; other screens stay.
pub open spec fn screen_with_password(s: Screen, v: String) -> Screen {
    match s {
        Screen::AuthForm { is_register, username, nickname, focused, .. } => Screen::AuthForm {
            is_register,
            username,
            nickname,
            password: v,
            focused,
        },
        other => other,
    }
}

/// `m` with the screen `s`.
pub open spec fn with_screen(m: Model, s: Screen) -> Model {
    Model { state: AppState { screen: s, ..m.state }, ..m }
}

/// `m1` differs from `m0` at most in the status line.
pub open spec fn only_status_changed(m0: Model, m1: Model) -> bool {
    m1 == Model { state: AppState { status: m1.state.status, ..m0.state }, ..m0 }
}

/// `m1` differs from `m0` at most in the screen and the status line.
pub open spec fn only_screen_status_changed(m0: Model, m1: Model) -> bool {
    m1 == Model { state: AppState { screen: m1.state.screen, status: m1.state.status, ..m0.state }, ..m0 }
}

pub open spec fn fill_all_fields() -> Seq<char> {
    "Заполните все поля!"@
}

pub open spec fn request_sent() -> Seq<char> {
    "Запрос отправлен..."@
}

/// What a submission of the form does.
pub open spec fn post_submit(m0: Model, m1: Model, fx: Seq<Effect>) -> bool {
    match m0.state.screen {
        Screen::AuthForm { is_register, nickname, username, password, .. } => {
            if is_blank(username@) || is_blank(password@) || (is_register && is_blank(nickname@)) {
                &&& only_status_changed(m0, m1)
                &&& m1.state.status@ == fill_all_fields()
                &&& fx.len() == 0
            } else {
                &&& only_status_changed(m0, m1)
                &&& m1.state.status@ == request_sent()
                &&& fx.len() == 1
                &&& if is_register {
                    fx[0] matches Effect::Send(ClientCommand::Register(n, u, p, ep, xp)) && n == nickname
                        && u == username && p == password && ep@ == m0.state.ed_public@ && xp@
                        == m0.state.x25519_public@
                } else {
                    fx[0] matches Effect::Send(ClientCommand::Login(u, p, ep, xp)) && u == username && p
                        == password && ep@ == m0.state.ed_public@ && xp@ == m0.state.x25519_public@
                }
            }
        },
        _ => m1 == m0 && fx.len() == 0,
    }
}

/// Sets the nickname field of the form.
pub fn nickname_changed(model: &mut Model, v: String) -> (fx: Vec<Effect>)
    requires
        old(model).wf(),
    ensures
        final(model).wf(),
        *final(model) == with_screen(*old(model), screen_with_nickname(old(model).state.screen, v)),
        fx@.len() == 0,
{
    match &mut model.state.screen {
        Screen::AuthForm { nickname, .. } => {
            *nickname = v;
        },
        _ => {},
    }
    Vec::new()
}

/// Sets the username field of the form.
pub fn username_changed(model: &mut Model, v: String) -> (fx: Vec<Effect>)
    requires
        old(model).wf(),
    ensures
        final(model).wf(),
        *final(model) == with_screen(*old(model), screen_with_username(old(model).state.screen, v)),
        fx@.len() == 0,
{
    match &mut model.state.screen {
        Screen::AuthForm { username, .. } => {
            *username = v;
        },
        _ => {},
    }
    Vec::new()
}

/// Sets the password field of the form.
pub fn password_changed(model: &mut Model, v: String) -> (fx: Vec<Effect>)
    requires
        old(model).wf(),
    ensures
        final(model).wf(),
        *final(model) == with_screen(*old(model), screen_with_password(old(model).state.screen, v)),
        fx@.len() == 0,
{
    match &mut model.state.screen {
        Screen::AuthForm { password, .. } => {
            *password = v;
        },
        _ => {},
    }
    Vec::new()
}

/// Shows or hides the password.
pub fn toggle_password(model: &mut Model) -> (fx: Vec<Effect>)
    requires
        old(model).wf(),
    ensures
        final(model).wf(),
        *final(model) == (Model { password_visible: !old(model).password_visible, ..*old(model) }),
        fx@.len() == 0,
{
    model.password_visible = !model.password_visible;
    Vec::new()
}

/// Returns to the main menu and clears the status line.
pub fn back(model: &mut Model) -> (fx: Vec<Effect>)
    requires
        old(model).wf(),
    ensures
        final(model).wf(),
        only_screen_status_changed(*old(model), *final(model)),
        final(model).state.screen == (Screen::MainMenu { selection: 0 }),
        final(model).state.status@ == Seq::<char>::empty(),
        fx@.len() == 0,
{
    model.state.screen = Screen::MainMenu { selection: 0 };
    model.state.status = String::new();
    Vec::new()
}

/// Opens an empty form: the registration form for entry 1, the sign-in form
/// otherwise.
pub fn main_menu_select(model: &mut Model, idx: usize) -> (fx: Vec<Effect>)
    requires
        old(model).wf(),
    ensures
        final(model).wf(),
        only_screen_status_changed(*old(model), *final(model)),
        final(model).state.screen matches Screen::AuthForm { is_register, username, nickname, password, focused }
            && is_register == (idx == 1) && username@.len() == 0 && nickname@.len() == 0
            && password@.len() == 0 && focused == FocusedField::Username,
        final(model).state.status@ == Seq::<char>::empty(),
        fx@.len() == 0,
{
    model.state.screen = Screen::AuthForm {
        is_register: idx == 1,
        nickname: String::new(),
        username: String::new(),
        password: String::new(),
        focused: FocusedField::Username,
    };
    model.state.status = String::new();
    Vec::new()
}

/// Sends the form: a registration or a sign-in request when every field that
/// it needs is filled, a complaint in the status line otherwise.
pub fn submit(model: &mut Model) -> (fx: Vec<Effect>)
    requires
        old(model).wf(),
    ensures
        final(model).wf(),
        post_submit(*old(model), *final(model), fx@),
{
    let mut fx: Vec<Effect> = Vec::new();
    let cmd = match &model.state.screen {
        Screen::AuthForm { is_register, nickname, username, password, .. } => {
            if blank(username.as_str()) || blank(password.as_str()) || (*is_register && blank(
                nickname.as_str(),
            )) {
                None
            } else if *is_register {
                Some(
                    ClientCommand::Register(
                        nickname.clone(),
                        username.clone(),
                        password.clone(),
                        crate::protocol::copy_bytes(&model.state.ed_public),
                        crate::protocol::copy_bytes(&model.state.x25519_public),
                    ),
                )
            } else {
                Some(
                    ClientCommand::Login(
                        username.clone(),
                        password.clone(),
                        crate::protocol::copy_bytes(&model.state.ed_public),
                        crate::protocol::copy_bytes(&model.state.x25519_public),
                    ),
                )
            }
        },
        _ => {
            return fx;
        },
    };
    match cmd {
        None => {
            model.state.status = "Заполните все поля!".to_owned();
            proof { reveal_strlit("Заполните все поля!"); }
        },
        Some(c) => {
            fx.push(Effect::Send(c));
            model.state.status = "Запрос отправлен...".to_owned();
            proof { reveal_strlit("Запрос отправлен..."); }
        },
    }
    fx
}

}
