use anonpeer::display::{
    screen_plan, BasePage,
    bubble_outcome, bubble_time_label, cached_avatar, edit_profile_face, edit_profile_name, is_own_profile,
    own_avatar, own_display_name, own_label, picture_base64,
    avatar_face, avatar_initial, bubble_failure_text, bubble_peer, chat_display_name, chat_last_time_label,
    conversation, face_from_decoded, keep_decrypted, last_activity, profile_bio, profile_display_name,
    profile_presence, sas_caption, search_entry_label, search_entry_target, status_tone, AvatarFace,
    BubbleFailure, StatusTone,
};
use anonpeer::protocol::{AppMessage, MessageContent, UserInfo};
use anonpeer::model::Model;
use anonpeer::state::{AppState, Screen};
use anonpeer::storage::{address_or_default, next_local_order, sqlite_url};

fn msg(from: &str, to: &str, ts: u64, ct: Vec<u8>) -> AppMessage {
    AppMessage { id: ts as u128, from: from.into(), to: to.into(), timestamp: ts, ciphertext: ct, nonce: vec![], signature: vec![], salt: vec![] }
}

fn state_with(messages: Vec<AppMessage>) -> AppState {
    let mut s = AppState::new_default(String::new(), None, (vec![], vec![], vec![], vec![]));
    s.username = Some("me@home".to_string());
    s.messages = messages;
    s
}

#[test]
fn conversation_matches_by_local_part_and_needs_ciphertext() {
    let s = state_with(vec![
        msg("me@home", "bob", 1, vec![1]),
        msg("bob", "me@other", 2, vec![1]),
        msg("bob", "me@home", 3, vec![]),
        msg("carol", "me@home", 4, vec![1]),
        msg("me", "bob", 5, vec![1]),
        msg("meh@home", "bob", 6, vec![1]),
    ]);
    assert_eq!(conversation(&s, "bob"), vec![0, 1, 4]);
    assert_eq!(conversation(&s, "carol"), vec![3]);
    assert!(conversation(&s, "dave").is_empty());
}

#[test]
fn last_activity_is_the_latest_message_of_the_chat() {
    let s = state_with(vec![
        msg("me@home", "bob", 10, vec![1]),
        msg("bob", "me@home", 3661, vec![]),
        msg("carol", "me@home", 99, vec![1]),
    ]);
    assert_eq!(last_activity(&s, "bob"), Some(3661));
    assert_eq!(last_activity(&s, "zed"), None);
    assert_eq!(chat_last_time_label(&s, "bob"), "01:01");
    assert_eq!(chat_last_time_label(&s, "carol"), "00:01");
    assert_eq!(chat_last_time_label(&s, "zed"), "");
}

#[test]
fn clock_labels_wrap_at_midnight() {
    let s = state_with(vec![msg("bob", "me@home", 86400 * 3 + 23 * 3600 + 59 * 60 + 59, vec![1])]);
    assert_eq!(chat_last_time_label(&s, "bob"), "23:59");
}

#[test]
fn search_entries_name_federated_users_fully() {
    let mut u = UserInfo { username: "bob".into(), nickname: "Бобби".into(), bio: String::new(), avatar_base64: None, last_seen: None, server_domain: None };
    assert_eq!(search_entry_target(&u), "bob");
    assert_eq!(search_entry_label(&u), "Бобби (@bob)");
    u.server_domain = Some("far.net".into());
    assert_eq!(search_entry_target(&u), "bob@far.net");
    assert_eq!(search_entry_label(&u), "Бобби (@bob@far.net)");
}

#[test]
fn presence_buckets() {
    let mut s = state_with(vec![]);
    assert_eq!(profile_presence(&s, "me@home", 1000), "В сети");
    assert_eq!(profile_presence(&s, "bob", 1000), "");
    let mut set = |ts: u64| {
        let mut t = state_with(vec![]);
        t.last_seen_cache.insert("bob".to_string(), Some(ts));
        t
    };
    assert_eq!(profile_presence(&set(1000), "bob", 1059), "в сети");
    assert_eq!(profile_presence(&set(1000), "bob", 1060), "был(а) в сети 1 мин. назад");
    assert_eq!(profile_presence(&set(0), "bob", 3599), "был(а) в сети 59 мин. назад");
    assert_eq!(profile_presence(&set(0), "bob", 7200), "был(а) в сети 2 ч. назад");
    assert_eq!(profile_presence(&set(0), "bob", 86400 * 3 + 5), "был(а) в сети 3 дн. назад");
    // A last-seen time in the future counts as now.
    assert_eq!(profile_presence(&set(5000), "bob", 10), "в сети");
    s.last_seen_cache.insert("eve".to_string(), None);
    assert_eq!(profile_presence(&s, "eve", 10), "");
}

#[test]
fn status_tones() {
    assert_eq!(status_tone("Ошибка: нет"), StatusTone::Error);
    assert_eq!(status_tone("Заполните все поля!"), StatusTone::Error);
    assert_eq!(status_tone(""), StatusTone::Hidden);
    assert_eq!(status_tone("Успешная авторизация"), StatusTone::Success);
}

#[test]
fn bubble_texts_and_caching() {
    assert_eq!(bubble_failure_text(BubbleFailure::Keys), "⏳ Ожидание ключей...");
    assert_eq!(bubble_failure_text(BubbleFailure::Decrypt), "🔒 Ошибка расшифрования");
    assert_eq!(bubble_failure_text(BubbleFailure::Format), "🔒 Ошибка формата сообщения");
    assert!(!keep_decrypted(Some(BubbleFailure::Keys)));
    assert!(keep_decrypted(Some(BubbleFailure::Decrypt)));
    assert!(keep_decrypted(None));
    let m = msg("me@home", "bob", 1, vec![1]);
    let (mine, peer) = bubble_peer(&m, "me@home");
    assert!(mine);
    assert_eq!(peer, "bob");
    let (mine, peer) = bubble_peer(&m, "bob");
    assert!(!mine);
    assert_eq!(peer, "me@home");
}

#[test]
fn sas_captions() {
    assert_eq!(sas_caption(Some("12 34")), "🔒 Код безопасности: 12 34 (совпадает = безопасно)");
    assert_eq!(sas_caption(None), "⏳ Обмен ключами...");
}

#[test]
fn display_names() {
    let mut s = state_with(vec![]);
    assert_eq!(chat_display_name(&s, "bob"), "bob");
    assert_eq!(profile_display_name(&s, "bob"), "Загрузка...");
    assert_eq!(profile_bio(&s, "bob"), "");
    s.nickname_cache.insert("bob".into(), "Бобби".into());
    s.bio_cache.insert("bob".into(), "о себе".into());
    assert_eq!(chat_display_name(&s, "bob"), "Бобби");
    assert_eq!(profile_display_name(&s, "bob"), "Бобби");
    assert_eq!(profile_bio(&s, "bob"), "о себе");
}

#[test]
fn avatars_show_picture_or_initial() {
    assert_eq!(avatar_initial("anna"), "A");
    assert_eq!(avatar_initial(""), "?");
    assert_eq!(avatar_initial("ёж"), "Ё");
    assert!(matches!(avatar_face(Some("aGk="), "anna"), AvatarFace::Picture(p) if p == vec![104, 105]));
    assert!(matches!(avatar_face(Some("not base64!"), "anna"), AvatarFace::Initial(s) if s == "A"));
    assert!(matches!(avatar_face(None, "zed"), AvatarFace::Initial(s) if s == "Z"));
    assert!(matches!(face_from_decoded(Some(vec![1, 2]), "x"), AvatarFace::Picture(p) if p == vec![1, 2]));
    assert!(matches!(face_from_decoded(None, "x"), AvatarFace::Initial(s) if s == "X"));
}

#[test]
fn storage_decisions() {
    assert_eq!(sqlite_url("./anon.db"), "sqlite://./anon.db?mode=rwc");
    assert_eq!(sqlite_url("sqlite://anon.db"), "sqlite://anon.db?mode=rwc");
    assert_eq!(sqlite_url("sqlite://sqlite://anon.db"), "sqlite://anon.db?mode=rwc");
    assert_eq!(sqlite_url(""), "sqlite://?mode=rwc");
    assert_eq!(address_or_default(None), "ws://127.0.0.1:3000/ws");
    assert_eq!(address_or_default(Some("ws://x/ws".into())), "ws://x/ws");
    assert_eq!(next_local_order(None), 1);
    assert_eq!(next_local_order(Some(41)), 42);
    assert_eq!(next_local_order(Some(-5)), -4);
}

#[test]
fn clock_labels_cover_chrono_range_and_wrapped_timestamps() {
    let last = 8_210_266_876_799u64;
    let s = state_with(vec![msg("bob", "me@home", last, vec![1])]);
    assert_eq!(chat_last_time_label(&s, "bob"), "23:59");
    let s = state_with(vec![msg("bob", "me@home", last + 1, vec![1])]);
    assert_eq!(chat_last_time_label(&s, "bob"), "");
    let s = state_with(vec![msg("bob", "me@home", u64::MAX - 59, vec![1])]);
    assert_eq!(chat_last_time_label(&s, "bob"), "23:59");
}

#[test]
fn bubble_times_are_clock_texts_or_unknown() {
    let t = bubble_time_label(&msg("bob", "me", 1_700_000_000, vec![1]));
    let c: Vec<char> = t.chars().collect();
    assert_eq!(c.len(), 5);
    assert_eq!(c[2], ':');
    assert!(c[0].is_ascii_digit() && c[1].is_ascii_digit() && c[3].is_ascii_digit() && c[4].is_ascii_digit());
    assert_eq!(bubble_time_label(&msg("bob", "me", 8_210_266_876_800, vec![1])), "??:??");
}

#[test]
fn avatar_letters_of_non_ascii_names() {
    assert_eq!(avatar_initial("Аноним"), "А");
    assert_eq!(avatar_initial("яна"), "Я");
    assert_eq!(avatar_initial("ßx"), "SS");
    assert!(matches!(avatar_face(None, "ёж"), AvatarFace::Initial(l) if l == "Ё"));
}

#[test]
fn pictures_encode_to_base64_and_back() {
    let text = picture_base64(&vec![1, 2, 3]);
    assert_eq!(text, "AQID");
    assert!(matches!(avatar_face(Some(&text), "x"), AvatarFace::Picture(p) if p == vec![1, 2, 3]));
}

#[test]
fn bubble_outcome_follows_the_opening_steps() {
    assert!(matches!(bubble_outcome(false, Some(vec![104]), None), Err(BubbleFailure::Keys)));
    assert!(matches!(bubble_outcome(true, None, None), Err(BubbleFailure::Decrypt)));
    let parsed = MessageContent::Image { mime_type: "image/jpeg".into(), base64_data: "AQID".into() };
    assert!(matches!(bubble_outcome(true, Some(vec![1]), Some(parsed)), Ok(MessageContent::Image { .. })));
    assert!(matches!(bubble_outcome(true, Some("привет".as_bytes().to_vec()), None), Ok(MessageContent::Text(t)) if t == "привет"));
    assert!(matches!(bubble_outcome(true, Some(vec![0xff, 0xfe]), None), Err(BubbleFailure::Format)));
}

#[test]
fn own_names_fall_back_to_anonymous() {
    let mut s = AppState::new_default(String::new(), None, (vec![], vec![], vec![], vec![]));
    assert_eq!(own_label(&s), "Аноним");
    assert_eq!(own_display_name(&s), "Аноним");
    assert_eq!(edit_profile_name(&s), "Аноним");
    assert!(matches!(edit_profile_face(&s), AvatarFace::Initial(l) if l == "А"));
    assert_eq!(own_avatar(&s), None);
    assert!(!is_own_profile(&s, "me@home"));
    s.username = Some("me@home".into());
    assert_eq!(own_label(&s), "me@home");
    assert_eq!(own_display_name(&s), "me@home");
    assert!(is_own_profile(&s, "me@home"));
    assert!(!is_own_profile(&s, "me"));
    s.nickname = Some("Вася".into());
    assert_eq!(own_display_name(&s), "Вася");
    assert_eq!(edit_profile_name(&s), "Вася");
    assert!(matches!(edit_profile_face(&s), AvatarFace::Initial(l) if l == "В"));
    s.edit_avatar_base64 = Some("AQID".into());
    assert!(matches!(edit_profile_face(&s), AvatarFace::Picture(p) if p == vec![1, 2, 3]));
    s.edit_avatar_base64 = Some("not base64!".into());
    assert!(matches!(edit_profile_face(&s), AvatarFace::Initial(l) if l == "В"));
}

#[test]
fn cached_avatars_are_read_from_the_cache() {
    let mut s = AppState::new_default(String::new(), None, (vec![], vec![], vec![], vec![]));
    s.username = Some("me@home".into());
    let u = |name: &str, avatar: Option<&str>| UserInfo { username: name.into(), nickname: "N".into(), bio: String::new(), avatar_base64: avatar.map(|a| a.to_string()), last_seen: None, server_domain: None };
    s.cache_profile(&u("me@home", Some("AQID")));
    s.cache_profile(&u("bob", None));
    assert_eq!(own_avatar(&s).as_deref(), Some("AQID"));
    assert_eq!(cached_avatar(&s, "me@home").as_deref(), Some("AQID"));
    assert_eq!(cached_avatar(&s, "bob"), None);
    assert_eq!(cached_avatar(&s, "zed"), None);
}

#[test]
fn screen_plan_picks_page_and_overlays() {
    let mut m = Model::new(AppState::new_default(String::new(), None, (vec![], vec![], vec![], vec![])));
    let p = screen_plan(&m);
    assert!(matches!(p.base, BasePage::Welcome));
    assert!(!p.settings_overlay);
    assert_eq!(p.expanded_image, None);
    m.state.screen = Screen::UserProfile { username: "bob".into() };
    m.show_settings = true;
    m.expanded_image_id = Some(9);
    let p = screen_plan(&m);
    assert!(matches!(&p.base, BasePage::Profile { username } if username == "bob"));
    assert!(p.settings_overlay);
    assert_eq!(p.expanded_image, Some(9));
    m.state.screen = Screen::ChatView { target: "bob".into(), input: String::new() };
    assert!(matches!(screen_plan(&m).base, BasePage::AppShell));
    m.state.screen = Screen::NewChat { input: String::new() };
    assert!(matches!(screen_plan(&m).base, BasePage::AppShell));
    m.state.screen = Screen::EditProfile;
    assert!(matches!(screen_plan(&m).base, BasePage::EditProfile));
}
