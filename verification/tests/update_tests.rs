use anonpeer::model::{Effect, ImagePurpose, Model, SealOutcome, UiMessage};
use anonpeer::network::{ClientCommand, ServerEvent};
use anonpeer::protocol::{AppMessage, MessageContent, UserInfo};
use anonpeer::state::{AppState, FocusedField, Screen};
use anonpeer::update::update;

fn model() -> Model {
    let state = AppState::new_default(
        "ws://127.0.0.1:3000/ws".to_string(),
        None,
        (vec![1], vec![2], vec![3], vec![4]),
    );
    Model::new(state)
}

fn signed_in() -> Model {
    let mut m = model();
    m.state.username = Some("me@h".to_string());
    m.state.session_id = Some("sid".to_string());
    m.state.screen = Screen::ChatList;
    m
}

fn incoming(from: &str, to: &str) -> AppMessage {
    AppMessage {
        id: 5,
        from: from.to_string(),
        to: to.to_string(),
        timestamp: 1,
        ciphertext: vec![1, 2],
        nonce: vec![3],
        signature: vec![4],
        salt: vec![],
    }
}

fn user(name: &str) -> UserInfo {
    UserInfo {
        username: name.to_string(),
        nickname: "Nick".to_string(),
        bio: "bio".to_string(),
        avatar_base64: None,
        last_seen: None,
        server_domain: None,
    }
}

#[test]
fn main_menu_opens_the_right_form() {
    let mut m = model();
    m.state.status = "old".to_string();
    let fx = update(&mut m, UiMessage::MainMenuSelect(1), 0);
    assert!(fx.is_empty());
    match &m.state.screen {
        Screen::AuthForm { is_register, username, nickname, password, focused } => {
            assert!(*is_register);
            assert!(username.is_empty() && nickname.is_empty() && password.is_empty());
            assert!(matches!(focused, FocusedField::Username));
        }
        _ => panic!("expected the form"),
    }
    assert_eq!(m.state.status, "");
    update(&mut m, UiMessage::MainMenuSelect(0), 0);
    assert!(matches!(m.state.screen, Screen::AuthForm { is_register: false, .. }));
    update(&mut m, UiMessage::AuthBack, 0);
    assert!(matches!(m.state.screen, Screen::MainMenu { selection: 0 }));
}

#[test]
fn submit_with_blank_fields_complains() {
    let mut m = model();
    update(&mut m, UiMessage::MainMenuSelect(1), 0);
    update(&mut m, UiMessage::AuthUsernameChanged("bob".to_string()), 0);
    update(&mut m, UiMessage::AuthPasswordChanged("pw".to_string()), 0);
    update(&mut m, UiMessage::AuthNicknameChanged("   ".to_string()), 0);
    let fx = update(&mut m, UiMessage::AuthSubmit, 0);
    assert!(fx.is_empty());
    assert_eq!(m.state.status, "Заполните все поля!");
}

#[test]
fn submit_registers_or_signs_in() {
    let mut m = model();
    update(&mut m, UiMessage::MainMenuSelect(1), 0);
    update(&mut m, UiMessage::AuthNicknameChanged("Bobby".to_string()), 0);
    update(&mut m, UiMessage::AuthUsernameChanged("bob".to_string()), 0);
    update(&mut m, UiMessage::AuthPasswordChanged("pw".to_string()), 0);
    let fx = update(&mut m, UiMessage::AuthSubmit, 0);
    assert_eq!(fx.len(), 1);
    match &fx[0] {
        Effect::Send(ClientCommand::Register(n, u, p, ep, xp)) => {
            assert_eq!((n.as_str(), u.as_str(), p.as_str()), ("Bobby", "bob", "pw"));
            assert_eq!((ep.clone(), xp.clone()), (vec![2], vec![4]));
        }
        _ => panic!("expected a registration"),
    }
    assert_eq!(m.state.status, "Запрос отправлен...");

    let mut m = model();
    update(&mut m, UiMessage::MainMenuSelect(0), 0);
    update(&mut m, UiMessage::AuthUsernameChanged("bob".to_string()), 0);
    update(&mut m, UiMessage::AuthPasswordChanged("pw".to_string()), 0);
    let fx = update(&mut m, UiMessage::AuthSubmit, 0);
    assert!(matches!(&fx[0], Effect::Send(ClientCommand::Login(u, p, _, _)) if u == "bob" && p == "pw"));
}

#[test]
fn submit_outside_the_form_does_nothing() {
    let mut m = model();
    let fx = update(&mut m, UiMessage::AuthSubmit, 0);
    assert!(fx.is_empty());
    assert_eq!(m.state.status, "");
}

#[test]
fn auth_ok_qualifies_the_name_with_the_server_domain() {
    let mut m = model();
    update(&mut m, UiMessage::MainMenuSelect(0), 0);
    update(&mut m, UiMessage::AuthUsernameChanged("bob".to_string()), 0);
    let fx = update(&mut m, UiMessage::Network(ServerEvent::AuthOk("s1".to_string())), 0);
    assert_eq!(m.state.username.as_deref(), Some("bob@127.0.0.1:3000"));
    assert_eq!(m.state.session_id.as_deref(), Some("s1"));
    assert!(matches!(m.state.screen, Screen::ChatList));
    assert_eq!(m.state.status, "Успешная авторизация");
    assert!(matches!(&fx[0], Effect::SaveLocalSession { username, session_id }
        if username == "bob@127.0.0.1:3000" && session_id == "s1"));

    let mut m = model();
    update(&mut m, UiMessage::MainMenuSelect(0), 0);
    update(&mut m, UiMessage::AuthUsernameChanged("bob@far".to_string()), 0);
    update(&mut m, UiMessage::Network(ServerEvent::AuthOk("s1".to_string())), 0);
    assert_eq!(m.state.username.as_deref(), Some("bob@far"));
}

#[test]
fn auth_ok_after_resume_keeps_saved_user() {
    let mut m = model();
    m.state.saved_session = Some(("me@h".to_string(), "sid".to_string()));
    let fx = update(&mut m, UiMessage::Network(ServerEvent::AuthOk("sid".to_string())), 0);
    assert!(fx.is_empty());
    assert_eq!(m.state.username.as_deref(), Some("me@h"));
}

#[test]
fn auth_error_drops_a_stale_saved_session() {
    let mut m = signed_in();
    m.state.saved_session = Some(("me@h".to_string(), "sid".to_string()));
    let fx = update(&mut m, UiMessage::Network(ServerEvent::AuthErr("bad".to_string())), 0);
    assert_eq!(m.state.status, "Ошибка: bad");
    assert!(m.state.saved_session.is_none() && m.state.username.is_none() && m.state.session_id.is_none());
    assert!(matches!(m.state.screen, Screen::MainMenu { selection: 0 }));
    assert!(matches!(fx.as_slice(), [Effect::ClearLocalSession]));

    let mut m = model();
    let fx = update(&mut m, UiMessage::Network(ServerEvent::AuthErr("bad".to_string())), 0);
    assert!(fx.is_empty());
    assert_eq!(m.state.status, "Ошибка: bad");
}

#[test]
fn new_message_is_stamped_stored_and_announced() {
    let mut m = signed_in();
    let fx = update(&mut m, UiMessage::Network(ServerEvent::NewMessage(incoming("bob", "me@h"))), 777);
    assert_eq!(m.state.messages.len(), 1);
    assert_eq!(m.state.messages[0].timestamp, 777);
    assert_eq!(m.state.chats, vec!["bob"]);
    assert_eq!(fx.len(), 6);
    assert!(matches!(&fx[0], Effect::SaveMessage(a) if a.timestamp == 777 && a.from == "bob"));
    assert!(matches!(&fx[1], Effect::Send(ClientCommand::FetchPeerKeys(t)) if t == "bob"));
    assert!(matches!(&fx[2], Effect::Send(ClientCommand::RequestProfile(t)) if t == "bob"));
    assert!(matches!(&fx[3], Effect::Notify { sender } if sender == "bob"));
    assert!(matches!(&fx[4], Effect::ScrollToBottom));
    assert!(matches!(&fx[5], Effect::Dispatch(UiMessage::Tick)));
}

#[test]
fn new_message_in_the_open_chat_is_not_announced() {
    let mut m = signed_in();
    update(&mut m, UiMessage::ChatSelected("bob".to_string()), 0);
    update(&mut m, UiMessage::KeysReceived { target: "bob".to_string(), ed_public: vec![7], x25519_public: vec![8] }, 0);
    update(&mut m, UiMessage::ProfileReceived(user("bob")), 0);
    let fx = update(&mut m, UiMessage::Network(ServerEvent::NewMessage(incoming("bob", "me@h"))), 9);
    assert_eq!(fx.len(), 2);
    assert!(matches!(&fx[1], Effect::ScrollToBottom));
    assert_eq!(m.state.chats, vec!["bob"]);
}

#[test]
fn own_echo_does_not_add_a_chat() {
    let mut m = signed_in();
    let fx = update(&mut m, UiMessage::Network(ServerEvent::NewMessage(incoming("me@h", "bob"))), 1);
    assert!(m.state.chats.is_empty());
    assert!(!fx.iter().any(|e| matches!(e, Effect::Notify { .. } | Effect::Dispatch(UiMessage::Tick))));
}

#[test]
fn selecting_a_chat_opens_it_and_asks_for_keys() {
    let mut m = signed_in();
    m.state.status = "x".to_string();
    let fx = update(&mut m, UiMessage::ChatSelected("zoe".to_string()), 0);
    update(&mut m, UiMessage::ChatSelected("anna".to_string()), 0);
    assert_eq!(m.state.chats, vec!["anna", "zoe"]);
    assert_eq!(m.selected_chat.as_deref(), Some("anna"));
    assert!(matches!(&m.state.screen, Screen::ChatView { target, input } if target == "anna" && input.is_empty()));
    assert_eq!(m.state.status, "");
    assert_eq!(fx.len(), 3);
    assert!(matches!(&fx[2], Effect::ScrollToBottom));
    // Opening one's own name does not add it.
    update(&mut m, UiMessage::ChatSelected("me@h".to_string()), 0);
    assert_eq!(m.state.chats, vec!["anna", "zoe"]);
}

#[test]
fn new_chat_submit_trims_and_ignores_blank() {
    let mut m = signed_in();
    update(&mut m, UiMessage::OpenNewChatScreen, 0);
    update(&mut m, UiMessage::NewChatInputChanged("   ".to_string()), 0);
    let fx = update(&mut m, UiMessage::NewChatSubmit, 0);
    assert!(fx.is_empty());
    assert!(matches!(m.state.screen, Screen::NewChat { .. }));
    update(&mut m, UiMessage::NewChatInputChanged("  bob@far  ".to_string()), 0);
    let fx = update(&mut m, UiMessage::NewChatSubmit, 0);
    assert_eq!(m.state.chats, vec!["bob@far"]);
    assert!(matches!(&m.state.screen, Screen::ChatView { target, .. } if target == "bob@far"));
    assert!(matches!(fx.as_slice(), [Effect::Send(ClientCommand::FetchPeerKeys(t))] if t == "bob@far"));
    update(&mut m, UiMessage::OpenNewChatScreen, 0);
    update(&mut m, UiMessage::NewChatCancel, 0);
    assert!(matches!(m.state.screen, Screen::ChatList));
}

#[test]
fn sending_without_keys_asks_for_them() {
    let mut m = signed_in();
    update(&mut m, UiMessage::ChatSelected("bob".to_string()), 0);
    update(&mut m, UiMessage::ChatViewInputChanged("hello".to_string()), 0);
    let fx = update(&mut m, UiMessage::ChatViewSend, 0);
    assert_eq!(m.state.status, "Нет ключей собеседника");
    assert!(matches!(fx.as_slice(), [Effect::Send(ClientCommand::FetchPeerKeys(t)), Effect::ScrollToBottom] if t == "bob"));
}

#[test]
fn blank_text_is_not_sent() {
    let mut m = signed_in();
    update(&mut m, UiMessage::ChatSelected("bob".to_string()), 0);
    update(&mut m, UiMessage::ChatViewInputChanged(" \n".to_string()), 0);
    let fx = update(&mut m, UiMessage::ChatViewSend, 0);
    assert!(matches!(fx.as_slice(), [Effect::ScrollToBottom]));
}

#[test]
fn sending_with_keys_seals_then_stores_and_sends() {
    let mut m = signed_in();
    update(&mut m, UiMessage::ChatSelected("bob".to_string()), 0);
    update(&mut m, UiMessage::KeysReceived { target: "bob".to_string(), ed_public: vec![7], x25519_public: vec![8] }, 0);
    update(&mut m, UiMessage::ChatViewInputChanged("hello".to_string()), 0);
    let fx = update(&mut m, UiMessage::ChatViewSend, 0);
    let content = match &fx[0] {
        Effect::Seal { target, content } => {
            assert_eq!(target, "bob");
            content.clone()
        }
        _ => panic!("expected sealing"),
    };
    assert!(matches!(&content, MessageContent::Text(t) if t == "hello"));
    let outcome = SealOutcome::Sealed { ciphertext: vec![10], nonce: vec![11], signature: vec![12] };
    let fx = update(&mut m, UiMessage::Sealed { target: "bob".to_string(), content, outcome }, 1000);
    assert_eq!(m.state.messages.len(), 1);
    let sent = &m.state.messages[0];
    assert_eq!((sent.from.as_str(), sent.to.as_str(), sent.timestamp), ("me@h", "bob", 1000));
    assert_eq!((sent.ciphertext.clone(), sent.nonce.clone(), sent.signature.clone()), (vec![10], vec![11], vec![12]));
    assert!(sent.salt.is_empty());
    assert_eq!((sent.id >> 76) & 0xF, 4);
    assert_eq!((sent.id >> 62) & 0x3, 2);
    assert!(matches!(&m.state.screen, Screen::ChatView { input, .. } if input.is_empty()));
    assert!(matches!(&fx[0], Effect::SaveMessage(a) if a.id == sent.id));
    assert!(matches!(&fx[1], Effect::Send(ClientCommand::Send(b)) if b.id == sent.id));
}

#[test]
fn sealing_failures_are_reported() {
    let mut m = signed_in();
    let text = || MessageContent::Text("x".to_string());
    let fx = update(&mut m, UiMessage::Sealed { target: "bob".to_string(), content: text(), outcome: SealOutcome::NoChatKey }, 0);
    assert_eq!(m.state.status, "Нет ключей собеседника");
    assert!(matches!(fx.as_slice(), [Effect::Send(ClientCommand::FetchPeerKeys(t))] if t == "bob"));
    update(&mut m, UiMessage::Sealed { target: "bob".to_string(), content: text(), outcome: SealOutcome::SerializeFailed }, 0);
    assert_eq!(m.state.status, "Ошибка сериализации");
    update(&mut m, UiMessage::Sealed { target: "bob".to_string(), content: text(), outcome: SealOutcome::EncryptFailed }, 0);
    assert_eq!(m.state.status, "Ошибка шифрования");
    assert!(m.state.messages.is_empty());
}

#[test]
fn sent_image_keeps_the_typed_text() {
    let mut m = signed_in();
    update(&mut m, UiMessage::ChatSelected("bob".to_string()), 0);
    update(&mut m, UiMessage::ChatViewInputChanged("draft".to_string()), 0);
    let content = MessageContent::Image { mime_type: "image/jpeg".to_string(), base64_data: "AA==".to_string() };
    let outcome = SealOutcome::Sealed { ciphertext: vec![1], nonce: vec![], signature: vec![] };
    update(&mut m, UiMessage::Sealed { target: "bob".to_string(), content, outcome }, 5);
    assert!(matches!(&m.state.screen, Screen::ChatView { input, .. } if input == "draft"));
}

#[test]
fn search_goes_out_from_two_bytes() {
    let mut m = signed_in();
    m.search_matches.push(user("x"));
    let fx = update(&mut m, UiMessage::SearchInputChanged("a".to_string()), 0);
    assert!(fx.is_empty() && m.search_matches.is_empty());
    assert_eq!(m.search_query, "a");
    let fx = update(&mut m, UiMessage::SearchInputChanged("ab".to_string()), 0);
    assert!(matches!(fx.as_slice(), [Effect::Send(ClientCommand::SearchPrefix(p))] if p == "ab"));
    // One Cyrillic letter is two bytes.
    let fx = update(&mut m, UiMessage::SearchInputChanged("я".to_string()), 0);
    assert_eq!(fx.len(), 1);
    let fx = update(&mut m, UiMessage::SearchSubmit, 0);
    assert!(matches!(fx.as_slice(), [Effect::Send(ClientCommand::SearchPrefix(p))] if p == "я"));
    update(&mut m, UiMessage::SearchInputChanged(" ".to_string()), 0);
    assert!(update(&mut m, UiMessage::SearchSubmit, 0).is_empty());
}

#[test]
fn search_results_and_picks() {
    let mut m = signed_in();
    update(&mut m, UiMessage::Network(ServerEvent::SearchResults(vec![user("bob"), user("bea")])), 0);
    assert_eq!(m.search_matches.len(), 2);
    m.search_query = "b".to_string();
    let fx = update(&mut m, UiMessage::SearchResultSelected("bob".to_string()), 0);
    assert!(m.search_query.is_empty() && m.search_matches.is_empty());
    assert!(matches!(fx.as_slice(), [Effect::Dispatch(UiMessage::ChatSelected(n))] if n == "bob"));
    m.search_query = "q".to_string();
    let fx = update(&mut m, UiMessage::SearchResult { username: "nobody".to_string(), exists: false }, 0);
    assert!(fx.is_empty());
    assert_eq!(m.search_query, "q");
    let fx = update(&mut m, UiMessage::Network(ServerEvent::UserSearchResult { username: "amy".to_string(), exists: true }), 0);
    assert!(matches!(fx.as_slice(), [Effect::Dispatch(UiMessage::SearchResult { username, exists: true })] if username == "amy"));
    update(&mut m, UiMessage::SearchResultsReceived(vec![user("c")]), 0);
    assert_eq!(m.search_matches.len(), 1);
}

#[test]
fn panels_never_open_together() {
    let mut m = model();
    update(&mut m, UiMessage::ToggleSettings, 0);
    assert!(m.show_settings && !m.hamburger_open);
    update(&mut m, UiMessage::ToggleHamburgerMenu, 0);
    assert!(m.hamburger_open && !m.show_settings);
    update(&mut m, UiMessage::ToggleSettings, 0);
    assert!(m.show_settings && !m.hamburger_open);
    update(&mut m, UiMessage::ToggleSettings, 0);
    assert!(!m.show_settings && !m.hamburger_open);
}

#[test]
fn server_address_change_reconnects_and_saves() {
    let mut m = model();
    let fx = update(&mut m, UiMessage::ServerAddressChanged("ws://new/ws".to_string()), 0);
    assert_eq!(m.state.server_address, "ws://new/ws");
    assert!(matches!(fx.as_slice(), [Effect::Send(ClientCommand::UpdateServerAddress(a)), Effect::Dispatch(UiMessage::SaveServerAddress)] if a == "ws://new/ws"));
    let fx = update(&mut m, UiMessage::SaveServerAddress, 0);
    assert!(matches!(fx.as_slice(), [Effect::SaveServerAddress(a)] if a == "ws://new/ws"));
}

#[test]
fn logout_clears_session_and_selection() {
    let mut m = signed_in();
    update(&mut m, UiMessage::ChatSelected("bob".to_string()), 0);
    let fx = update(&mut m, UiMessage::Logout, 0);
    assert!(m.selected_chat.is_none() && m.state.username.is_none() && m.state.chats.is_empty());
    assert!(matches!(fx.as_slice(), [Effect::ClearLocalSession]));
}

#[test]
fn images_are_loaded_only_when_a_file_was_picked() {
    let mut m = model();
    assert!(matches!(update(&mut m, UiMessage::PickImage, 0).as_slice(), [Effect::PickImage]));
    assert!(update(&mut m, UiMessage::ImagePicked(String::new()), 0).is_empty());
    let fx = update(&mut m, UiMessage::ImagePicked("/tmp/a.png".to_string()), 0);
    assert!(matches!(fx.as_slice(), [Effect::LoadImage { path, max_dim: 800, purpose: ImagePurpose::Attachment }] if path == "/tmp/a.png"));
    assert!(update(&mut m, UiMessage::EditProfileAvatarPicked(String::new()), 0).is_empty());
    let fx = update(&mut m, UiMessage::EditProfileAvatarPicked("/tmp/b.png".to_string()), 0);
    assert!(matches!(fx.as_slice(), [Effect::LoadImage { max_dim: 256, purpose: ImagePurpose::Avatar, .. }]));
    update(&mut m, UiMessage::ExpandImage(99), 0);
    assert_eq!(m.expanded_image_id, Some(99));
    update(&mut m, UiMessage::CloseExpandedImage, 0);
    assert_eq!(m.expanded_image_id, None);
    update(&mut m, UiMessage::StatusUpdate("Ошибка: x".to_string()), 0);
    assert_eq!(m.state.status, "Ошибка: x");
}

#[test]
fn profile_editing_round_trip() {
    let mut m = signed_in();
    let mut me = user("me@h");
    me.bio = "old bio".to_string();
    me.avatar_base64 = Some("AAAA".to_string());
    update(&mut m, UiMessage::ProfileUpdated(me), 0);
    update(&mut m, UiMessage::OpenEditProfile, 0);
    assert!(matches!(m.state.screen, Screen::EditProfile));
    assert_eq!(m.state.edit_bio, "old bio");
    assert_eq!(m.state.edit_avatar_base64.as_deref(), Some("AAAA"));
    update(&mut m, UiMessage::EditProfileBioChanged("new bio".to_string()), 0);
    update(&mut m, UiMessage::EditProfileAvatarReady("BBBB".to_string()), 0);
    let fx = update(&mut m, UiMessage::EditProfileSave, 0);
    assert!(matches!(fx.as_slice(), [Effect::Send(ClientCommand::UpdateProfile { bio: Some(b), avatar_base64: Some(a) })] if b == "new bio" && a == "BBBB"));
    assert_eq!(m.state.bio_cache.get("me@h").map(|s| s.as_str()), Some("new bio"));
    assert_eq!(m.state.status, "Профиль обновлён");
    assert!(matches!(m.state.screen, Screen::ChatList));
}

#[test]
fn profile_viewing() {
    let mut m = signed_in();
    let fx = update(&mut m, UiMessage::ViewProfile("bob".to_string()), 0);
    assert!(matches!(&m.state.screen, Screen::UserProfile { username } if username == "bob"));
    assert!(matches!(fx.as_slice(), [Effect::Send(ClientCommand::RequestProfile(u))] if u == "bob"));
    let fx = update(&mut m, UiMessage::Network(ServerEvent::ProfileReceived(user("bob"))), 0);
    assert!(m.state.nickname_cache.contains_key("bob"));
    assert!(matches!(fx.as_slice(), [Effect::Dispatch(UiMessage::ProfileReceived(u))] if u.username == "bob"));
    let fx = update(&mut m, UiMessage::Network(ServerEvent::ProfileUpdated), 0);
    assert!(matches!(fx.as_slice(), [Effect::Send(ClientCommand::RequestProfile(u))] if u == "me@h"));
    update(&mut m, UiMessage::CloseProfile, 0);
    assert!(matches!(m.state.screen, Screen::ChatList));
}

#[test]
fn other_network_events() {
    let mut m = signed_in();
    update(&mut m, UiMessage::Network(ServerEvent::Disconnect), 0);
    assert_eq!(m.state.status, "Соединение разорвано");
    let fx = update(&mut m, UiMessage::Network(ServerEvent::PeerKeys { target: "bob".to_string(), ed_public: vec![1], x25519_public: vec![2] }), 0);
    assert!(m.state.peer_keys.contains_key("bob"));
    assert!(matches!(fx.as_slice(), [Effect::Dispatch(UiMessage::KeysReceived { target, .. })] if target == "bob"));
    assert!(matches!(update(&mut m, UiMessage::Tick, 0).as_slice(), [Effect::PollNetwork]));
    assert!(matches!(update(&mut m, UiMessage::FetchKeysFor("x".to_string()), 0).as_slice(), [Effect::Send(ClientCommand::FetchPeerKeys(t))] if t == "x"));
    update(&mut m, UiMessage::AuthTogglePasswordVisibility, 0);
    assert!(m.password_visible);
}

#[test]
fn sealed_text_for_another_chat_keeps_the_open_draft() {
    let mut m = signed_in();
    update(&mut m, UiMessage::ChatSelected("carol".to_string()), 0);
    update(&mut m, UiMessage::ChatViewInputChanged("draft".to_string()), 0);
    let outcome = SealOutcome::Sealed { ciphertext: vec![1], nonce: vec![], signature: vec![] };
    update(&mut m, UiMessage::Sealed { target: "bob".to_string(), content: MessageContent::Text("hi".to_string()), outcome }, 5);
    assert_eq!(m.state.messages.len(), 1);
    assert_eq!(m.state.messages[0].to, "bob");
    assert!(matches!(&m.state.screen, Screen::ChatView { target, input } if target == "carol" && input == "draft"));
}
