use anonpeer::network::ClientCommand;
use anonpeer::protocol::{AnonError, AppMessage, UserInfo};
use anonpeer::state::{insert_sorted, AppState, Screen};

fn keys() -> (Vec<u8>, Vec<u8>, Vec<u8>, Vec<u8>) {
    (vec![1, 1], vec![2, 2], vec![3, 3], vec![4, 4])
}

fn msg(from: &str, to: &str, ts: u64) -> AppMessage {
    AppMessage {
        id: ts as u128,
        from: from.to_string(),
        to: to.to_string(),
        timestamp: ts,
        ciphertext: vec![9],
        nonce: vec![],
        signature: vec![],
        salt: vec![],
    }
}

#[test]
fn new_default_starts_on_main_menu() {
    let s = AppState::new_default("ws://h/ws".to_string(), None, keys());
    assert!(matches!(s.screen, Screen::MainMenu { selection: 0 }));
    assert!(s.username.is_none() && s.session_id.is_none() && s.nickname.is_none());
    assert_eq!(s.ed_secret, vec![1, 1]);
    assert_eq!(s.ed_public, vec![2, 2]);
    assert_eq!(s.x25519_secret, vec![3, 3]);
    assert_eq!(s.x25519_public, vec![4, 4]);
    assert!(s.chats.is_empty() && s.messages.is_empty());
    assert_eq!(s.server_address, "ws://h/ws");
}

#[test]
fn chat_key_inputs_need_cached_keys() {
    let mut s = AppState::new_default(String::new(), None, keys());
    match s.chat_key_inputs("bob") {
        Err(AnonError::Crypto(m)) => assert_eq!(m, "Keys for bob not cached"),
        _ => panic!("expected a crypto error"),
    }
    assert!(s.sas_inputs("bob").is_none());
    s.cache_peer_keys("bob".to_string(), vec![7], vec![8]);
    match s.chat_key_inputs("bob") {
        Ok((secret, public)) => {
            assert_eq!(secret, &vec![3, 3]);
            assert_eq!(public, &vec![8]);
        }
        Err(_) => panic!("keys are cached"),
    }
    assert_eq!(s.sas_inputs("bob").map(|(a, b)| (a.clone(), b.clone())), Some((vec![3, 3], vec![8])));
}

#[test]
fn sender_key_is_own_key_for_own_messages() {
    let mut s = AppState::new_default(String::new(), None, keys());
    s.username = Some("me@h".to_string());
    assert_eq!(s.get_sender_public_key("me@h"), Some(&vec![2, 2]));
    assert_eq!(s.get_sender_public_key("bob"), None);
    s.cache_peer_keys("bob".to_string(), vec![7], vec![8]);
    assert_eq!(s.get_sender_public_key("bob"), Some(&vec![7]));
    s.add_peer_key("carol".to_string(), vec![5]);
    assert_eq!(s.get_sender_public_key("carol"), Some(&vec![5]));
}

#[test]
fn cache_profile_stores_under_name_and_federated_name() {
    let mut s = AppState::new_default(String::new(), None, keys());
    let user = UserInfo {
        username: "bob".to_string(),
        nickname: "Bobby".to_string(),
        bio: "hi".to_string(),
        avatar_base64: Some("aGk=".to_string()),
        last_seen: Some(42),
        server_domain: Some("other.net".to_string()),
    };
    s.cache_profile(&user);
    for key in ["bob", "bob@other.net"] {
        assert_eq!(s.nickname_cache.get(key).map(|x| x.as_str()), Some("Bobby"));
        assert_eq!(s.bio_cache.get(key).map(|x| x.as_str()), Some("hi"));
        assert_eq!(s.avatar_cache.get(key), Some(&Some("aGk=".to_string())));
        assert_eq!(s.last_seen_cache.get(key), Some(&Some(42)));
    }
    let local = UserInfo { server_domain: None, username: "eve".to_string(), ..user };
    s.cache_profile(&local);
    assert!(s.nickname_cache.contains_key("eve"));
    assert!(!s.nickname_cache.contains_key("eve@other.net"));
}

#[test]
fn logout_forgets_the_session() {
    let mut s = AppState::new_default(String::new(), None, keys());
    s.username = Some("me".to_string());
    s.session_id = Some("sid".to_string());
    s.nickname = Some("Me".to_string());
    s.remember_chat("bob".to_string());
    s.messages.push(msg("me", "bob", 1));
    s.cache_peer_keys("bob".to_string(), vec![7], vec![8]);
    s.screen = Screen::ChatList;
    s.logout();
    assert!(s.username.is_none() && s.session_id.is_none() && s.nickname.is_none());
    assert!(s.chats.is_empty() && s.messages.is_empty());
    assert_eq!(s.status, "Вы вышли из системы");
    assert!(matches!(s.screen, Screen::MainMenu { selection: 0 }));
    assert!(!s.peer_keys.contains_key("bob"));
    assert!(s.get_sender_public_key("bob").is_none());
}

#[test]
fn chat_list_stays_sorted_without_repeats() {
    let mut v: Vec<String> = Vec::new();
    for name in ["mallory", "alice", "zed", "alice", "bob", "Zoe"] {
        insert_sorted(&mut v, name.to_string());
    }
    assert_eq!(v, vec!["Zoe", "alice", "bob", "mallory", "zed"]);
}

#[test]
fn history_fills_messages_and_chat_list() {
    let mut s = AppState::new_default(String::new(), None, keys());
    s.load_history(vec![msg("me", "carol", 1), msg("bob", "me", 2), msg("me", "bob", 3)]);
    assert_eq!(s.messages.len(), 3);
    assert_eq!(s.messages[1].from, "bob");
    assert_eq!(s.chats, vec!["bob", "carol", "me"]);
}

#[test]
fn saved_session_is_resumed() {
    let mut s = AppState::new_default(String::new(), Some(("me@h".to_string(), "sid".to_string())), keys());
    match s.resume_saved_session() {
        Some(ClientCommand::ValidateSession(sid)) => assert_eq!(sid, "sid"),
        _ => panic!("expected a session check"),
    }
    assert_eq!(s.username.as_deref(), Some("me@h"));
    assert_eq!(s.session_id.as_deref(), Some("sid"));
    assert!(matches!(s.screen, Screen::ChatList));

    let mut fresh = AppState::new_default(String::new(), None, keys());
    assert!(fresh.resume_saved_session().is_none());
    assert!(matches!(fresh.screen, Screen::MainMenu { .. }));
}
