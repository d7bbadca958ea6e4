use anonpeer::model::{Effect, Model, SealOutcome, UiMessage};
use anonpeer::protocol::MessageContent;
use anonpeer::network::ServerEvent;
use anonpeer::protocol::AppMessage;
use anonpeer::state::{insert_sorted, AppState};
use anonpeer::storage::sqlite_url;
use anonpeer::update::update;

fn model() -> Model {
    Model::new(AppState::new_default("ws://srv/ws".to_string(), None, (vec![], vec![5], vec![6], vec![7])))
}

#[test]
fn theme_toggled_twice_is_unchanged() {
    let mut m = model();
    let before = m.is_light_theme;
    update(&mut m, UiMessage::ToggleTheme, 0);
    assert_ne!(m.is_light_theme, before);
    update(&mut m, UiMessage::ToggleTheme, 0);
    assert_eq!(m.is_light_theme, before);
}

#[test]
fn history_only_grows_until_sign_out() {
    let mut m = model();
    m.state.username = Some("me@srv".to_string());
    let mk = |from: &str, id: u128| AppMessage { id, from: from.into(), to: "me@srv".into(), timestamp: 0, ciphertext: vec![1], nonce: vec![], signature: vec![], salt: vec![] };
    update(&mut m, UiMessage::Network(ServerEvent::NewMessage(mk("a", 1))), 1);
    update(&mut m, UiMessage::ChatSelected("b".into()), 2);
    update(&mut m, UiMessage::Network(ServerEvent::NewMessage(mk("b", 2))), 3);
    update(&mut m, UiMessage::ToggleSettings, 4);
    let ids: Vec<u128> = m.state.messages.iter().map(|x| x.id).collect();
    assert_eq!(ids, vec![1, 2]);
    update(&mut m, UiMessage::Logout, 5);
    assert!(m.state.messages.is_empty());
}

#[test]
fn signed_in_name_always_has_a_domain() {
    for (typed, expected) in [("bob", "bob@srv"), ("bob@x", "bob@x")] {
        let mut m = model();
        update(&mut m, UiMessage::MainMenuSelect(0), 0);
        update(&mut m, UiMessage::AuthUsernameChanged(typed.into()), 0);
        update(&mut m, UiMessage::Network(ServerEvent::AuthOk("s".into())), 0);
        assert_eq!(m.state.username.as_deref(), Some(expected));
        assert!(m.state.username.unwrap().contains('@'));
    }
}

#[test]
fn sorted_chat_list_has_no_repeats() {
    let mut v: Vec<String> = Vec::new();
    for n in ["b", "a", "b", "c", "a"] {
        insert_sorted(&mut v, n.into());
    }
    let mut dedup = v.clone();
    dedup.dedup();
    assert_eq!(v, dedup);
    assert_eq!(v, vec!["a", "b", "c"]);
}

#[test]
fn cached_keys_are_read_back() {
    let mut s = AppState::new_default(String::new(), None, (vec![], vec![], vec![9], vec![]));
    s.cache_peer_keys("bob".into(), vec![1, 2], vec![3, 4]);
    assert_eq!(s.get_sender_public_key("bob"), Some(&vec![1, 2]));
    assert!(matches!(s.chat_key_inputs("bob"), Ok((sec, public)) if sec == &vec![9] && public == &vec![3, 4]));
}

#[test]
fn sqlite_prefix_makes_no_difference() {
    for p in ["a.db", "", "/x/y.db", "sqlite://z"] {
        assert_eq!(sqlite_url(&format!("sqlite://{}", p)), sqlite_url(p));
    }
}

#[test]
fn chat_shows_only_its_conversation() {
    let mut s = AppState::new_default(String::new(), None, (vec![], vec![], vec![], vec![]));
    s.username = Some("me@h".into());
    for (i, (f, t)) in [("me@h", "bob"), ("eve", "me@h"), ("bob", "me@h"), ("bob", "eve")].iter().enumerate() {
        s.messages.push(AppMessage { id: i as u128, from: f.to_string(), to: t.to_string(), timestamp: 0, ciphertext: vec![1], nonce: vec![], signature: vec![], salt: vec![] });
    }
    let idx = anonpeer::display::conversation(&s, "bob");
    assert_eq!(idx, vec![0, 2]);
    assert!(idx.windows(2).all(|w| w[0] < w[1]));
}

#[test]
fn every_new_message_is_stored_first() {
    let mut m = model();
    m.state.username = Some("me@srv".to_string());
    let incoming = AppMessage { id: 7, from: "bob".into(), to: "me@srv".into(), timestamp: 5, ciphertext: vec![1], nonce: vec![], signature: vec![], salt: vec![] };
    let fx = update(&mut m, UiMessage::Network(ServerEvent::NewMessage(incoming)), 9);
    assert!(matches!(&fx[0], Effect::SaveMessage(saved) if saved.id == 7 && saved.from == "bob"));
    let outcome = SealOutcome::Sealed { ciphertext: vec![2], nonce: vec![3], signature: vec![4] };
    let content = MessageContent::Text("hi".into());
    let fx = update(&mut m, UiMessage::Sealed { target: "bob".into(), content, outcome }, 10);
    assert_eq!(m.state.messages.len(), 2);
    let last = m.state.messages.last().unwrap();
    assert!(matches!(&fx[0], Effect::SaveMessage(saved) if saved.id == last.id && saved.to == "bob" && saved.ciphertext == vec![2]));
}

#[test]
fn chat_list_keeps_its_chats_until_sign_out() {
    let mut m = model();
    m.state.username = Some("me@srv".to_string());
    let incoming = AppMessage { id: 1, from: "bob".into(), to: "me@srv".into(), timestamp: 5, ciphertext: vec![1], nonce: vec![], signature: vec![], salt: vec![] };
    update(&mut m, UiMessage::Network(ServerEvent::NewMessage(incoming)), 1);
    update(&mut m, UiMessage::ChatSelected("alice".into()), 2);
    update(&mut m, UiMessage::ToggleTheme, 3);
    update(&mut m, UiMessage::Network(ServerEvent::Disconnect), 4);
    assert!(m.state.chats.iter().any(|c| c == "bob"));
    update(&mut m, UiMessage::Logout, 5);
    assert!(m.state.chats.is_empty());
}
