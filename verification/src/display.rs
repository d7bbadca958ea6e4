//! What the screens show, computed from the state: which messages belong to
//! a conversation, the time of a chat's last message, the labels of search
//! results, presence, the tone of the status line and the security caption.
use vstd::prelude::*;
use crate::protocol::{AppMessage, MessageContent, UserInfo};
use crate::model::Model;
use crate::state::{AppState, Screen};
use crate::text::{concat3, decimal, decimal_string, has_prefix, join_at, local_of, local_part, push_str,
    same_text, starts_with};

verus! {

/// Whether `m` passes between the user `me` and `target`: one end is `target`
/// and the other has the same local part as `me`.
pub open spec fn in_conversation(m: AppMessage, me: Seq<char>, target: Seq<char>) -> bool {
    let mine = local_part(me);
    ||| (local_part(m.from@) == mine && m.to@ == target)
    ||| (local_part(m.to@) == mine && m.from@ == target)
}

/// Whether the chat with `target` shows `m`: it is in the conversation and
/// carries a ciphertext.
pub open spec fn shown_in_chat(m: AppMessage, me: Seq<char>, target: Seq<char>) -> bool {
    m.ciphertext@.len() > 0 && in_conversation(m, me, target)
}

/// The positions among the first `n` messages that the chat with `target`
/// shows, in order.
pub open spec fn shown_indices(ms: Seq<AppMessage>, me: Seq<char>, target: Seq<char>, n: int) -> Seq<usize>
    decreases n,
{
    if n <= 0 {
        Seq::empty()
    } else if shown_in_chat(ms[n - 1], me, target) {
        shown_indices(ms, me, target, n - 1).push((n - 1) as usize)
    } else {
        shown_indices(ms, me, target, n - 1)
    }
}

/// The time of the last of the first `n` messages in the conversation with
/// `chat`, if any.
pub open spec fn last_time(ms: Seq<AppMessage>, me: Seq<char>, chat: Seq<char>, n: int) -> Option<u64>
    decreases n,
{
    if n <= 0 {
        None
    } else if in_conversation(ms[n - 1], me, chat) {
        Some(ms[n - 1].timestamp)
    } else {
        last_time(ms, me, chat, n - 1)
    }
}

/// The name the signed-in user goes by in comparisons: empty when signed
/// out.
pub open spec fn me_of(st: AppState) -> Seq<char> {
    match st.username {
        Some(u) => u@,
        None => Seq::empty(),
    }
}

/// The signed-in user's name, or the empty string when signed out.
pub fn me_text(st: &AppState) -> (out: String)
    ensures
        out@ == me_of(*st),
{
    match &st.username {
        Some(u) => u.clone(),
        None => String::new(),
    }
}

fn in_conversation_exec(m: &AppMessage, mine: &str, target: &str) -> (r: bool)
    ensures
        r == (local_part(m.from@) == mine@ && m.to@ == target@ || local_part(m.to@) == mine@ && m.from@
            == target@),
{
    let from_local = local_of(m.from.as_str());
    let to_local = local_of(m.to.as_str());
    (same_text(from_local.as_str(), mine) && same_text(m.to.as_str(), target)) || (same_text(
        to_local.as_str(),
        mine,
    ) && same_text(m.from.as_str(), target))
}

/// The positions of the messages that the chat with `target` shows, in
/// order.
pub fn conversation(st: &AppState, target: &str) -> (idx: Vec<usize>)
    ensures
        idx@ == shown_indices(st.messages@, me_of(*st), target@, st.messages@.len() as int),
{
    let me = me_text(st);
    let mine = local_of(me.as_str());
    let mut idx: Vec<usize> = Vec::new();
    let mut i: usize = 0;
    while i < st.messages.len()
        invariant
            i <= st.messages@.len(),
            mine@ == local_part(me_of(*st)),
            idx@ == shown_indices(st.messages@, me_of(*st), target@, i as int),
        decreases st.messages@.len() - i,
    {
        let m = &st.messages[i];
        if m.ciphertext.len() > 0 && in_conversation_exec(m, mine.as_str(), target) {
            idx.push(i);
        }
        i = i + 1;
    }
    idx
}

/// The time of the last message in the conversation with `chat`, if any.
pub fn last_activity(st: &AppState, chat: &str) -> (t: Option<u64>)
    ensures
        t == last_time(st.messages@, me_of(*st), chat@, st.messages@.len() as int),
{
    let me = me_text(st);
    let mine = local_of(me.as_str());
    let mut i: usize = st.messages.len();
    while i > 0
        invariant
            i <= st.messages@.len(),
            mine@ == local_part(me_of(*st)),
            last_time(st.messages@, me_of(*st), chat@, st.messages@.len() as int) == last_time(
                st.messages@,
                me_of(*st),
                chat@,
                i as int,
            ),
        decreases i,
    {
        let m = &st.messages[i - 1];
        if in_conversation_exec(m, mine.as_str(), chat) {
            return Some(m.timestamp);
        }
        i = i - 1;
    }
    None
}

/// The chat that a search result opens: `username@domain` when the user is
/// on another server, else the username.
pub open spec fn search_target(u: UserInfo) -> Seq<char> {
    match u.server_domain {
        Some(d) => u.username@ + seq!['@'] + d@,
        None => u.username@,
    }
}

/// The line that shows a search result.
pub open spec fn search_label(u: UserInfo) -> Seq<char> {
    match u.server_domain {
        Some(d) => u.nickname@ + " (@"@ + u.username@ + seq!['@'] + d@ + ")"@,
        None => u.nickname@ + " (@"@ + u.username@ + ")"@,
    }
}

/// The chat that a search result opens.
pub fn search_entry_target(u: &UserInfo) -> (out: String)
    ensures
        out@ == search_target(*u),
{
    match &u.server_domain {
        Some(d) => join_at(u.username.as_str(), d.as_str()),
        None => u.username.clone(),
    }
}

/// The line that shows a search result.
pub fn search_entry_label(u: &UserInfo) -> (out: String)
    ensures
        out@ == search_label(*u),
{
    let mut out = concat3(u.nickname.as_str(), " (@", u.username.as_str());
    match &u.server_domain {
        Some(d) => {
            push_str(&mut out, "@");
            push_str(&mut out, d.as_str());
            push_str(&mut out, ")");
            proof {
                reveal_strlit("@");
                assert("@"@ =~= seq!['@']);
            }
        },
        None => {
            push_str(&mut out, ")");
        },
    }
    out
}

/// The presence line of a profile: "online" for oneself; for others the
/// time since last seen, in minutes, hours or days; nothing when unknown.
pub open spec fn presence(is_me: bool, last_seen: Option<u64>, now: u64) -> Seq<char> {
    if is_me {
        "В сети"@
    } else {
        match last_seen {
            Some(ts) => {
                let diff: nat = if now >= ts { (now - ts) as nat } else { 0 };
                if diff < 60 {
                    "в сети"@
                } else if diff < 3600 {
                    "был(а) в сети "@ + decimal(diff / 60) + " мин. назад"@
                } else if diff < 86400 {
                    "был(а) в сети "@ + decimal(diff / 3600) + " ч. назад"@
                } else {
                    "был(а) в сети "@ + decimal(diff / 86400) + " дн. назад"@
                }
            },
            None => Seq::empty(),
        }
    }
}

/// The presence line of the profile of `username` at time `now`.
pub fn profile_presence(st: &AppState, username: &str, now: u64) -> (out: String)
    requires
        st.wf(),
    ensures
        out@ == presence(
            st.username is Some && st.username->0@ == username@,
            if st.last_seen_cache@.contains_key(username@) {
                st.last_seen_cache@[username@]
            } else {
                None
            },
            now,
        ),
        (st.username matches Some(u) && u@ == username@) ==> out@ == "В сети"@,
{
    let is_me = match &st.username {
        Some(u) => same_text(u.as_str(), username),
        None => false,
    };
    if is_me {
        proof { reveal_strlit("В сети"); }
        return "В сети".to_owned();
    }
    let last_seen = match st.last_seen_cache.get(username) {
        Some(v) => *v,
        None => None,
    };
    match last_seen {
        Some(ts) => {
            let diff = now.saturating_sub(ts);
            proof {
                reveal_strlit("в сети");
                reveal_strlit("был(а) в сети ");
                reveal_strlit(" мин. назад");
                reveal_strlit(" ч. назад");
                reveal_strlit(" дн. назад");
            }
            if diff < 60 {
                "в сети".to_owned()
            } else if diff < 3600 {
                let n = decimal_string(diff / 60);
                concat3("был(а) в сети ", n.as_str(), " мин. назад")
            } else if diff < 86400 {
                let n = decimal_string(diff / 3600);
                concat3("был(а) в сети ", n.as_str(), " ч. назад")
            } else {
                let n = decimal_string(diff / 86400);
                concat3("был(а) в сети ", n.as_str(), " дн. назад")
            }
        },
        None => String::new(),
    }
}

/// How the status line of the sign-in form is coloured.
#[derive(Clone, Copy, Debug, PartialEq, Eq, Structural)]
pub enum StatusTone {
    /// An error or a complaint.
    Error,
    /// Nothing to show.
    Hidden,
    /// Any other news.
    Success,
}

/// The tone of a status line: errors and complaints begin with "Ошибка" or
/// "Заполните".
pub open spec fn tone_of(status: Seq<char>) -> StatusTone {
    if has_prefix(status, "Ошибка"@) || has_prefix(status, "Заполните"@) {
        StatusTone::Error
    } else if status.len() == 0 {
        StatusTone::Hidden
    } else {
        StatusTone::Success
    }
}

/// The tone of a status line.
pub fn status_tone(status: &str) -> (t: StatusTone)
    ensures
        t == tone_of(status@),
{
    if starts_with(status, "Ошибка") || starts_with(status, "Заполните") {
        StatusTone::Error
    } else if status.is_empty() {
        StatusTone::Hidden
    } else {
        StatusTone::Success
    }
}

/// Why a message bubble shows no content.
#[derive(Clone, Copy, Debug, PartialEq, Eq, Structural)]
pub enum BubbleFailure {
    /// The keys for the conversation are not known yet.
    Keys,
    /// Decryption or the signature check failed.
    Decrypt,
    /// The plaintext is neither a content nor UTF-8 text.
    Format,
}

pub open spec fn failure_text(f: BubbleFailure) -> Seq<char> {
    match f {
        BubbleFailure::Keys => "⏳ Ожидание ключей..."@,
        BubbleFailure::Decrypt => "🔒 Ошибка расшифрования"@,
        BubbleFailure::Format => "🔒 Ошибка формата сообщения"@,
    }
}

/// The text a bubble shows instead of its content.
pub fn bubble_failure_text(f: BubbleFailure) -> (out: String)
    ensures
        out@ == failure_text(f),
{
    match f {
        BubbleFailure::Keys => {
            proof { reveal_strlit("⏳ Ожидание ключей..."); }
            "⏳ Ожидание ключей...".to_owned()
        },
        BubbleFailure::Decrypt => {
            proof { reveal_strlit("🔒 Ошибка расшифрования"); }
            "🔒 Ошибка расшифрования".to_owned()
        },
        BubbleFailure::Format => {
            proof { reveal_strlit("🔒 Ошибка формата сообщения"); }
            "🔒 Ошибка формата сообщения".to_owned()
        },
    }
}

/// Whether a decryption outcome is kept for later renderings: everything but
/// missing keys, which may arrive.
pub fn keep_decrypted(failure: Option<BubbleFailure>) -> (r: bool)
    ensures
        r == (failure != Some(BubbleFailure::Keys)),
{
    match failure {
        Some(BubbleFailure::Keys) => false,
        _ => true,
    }
}

/// Whether the message is the signed-in user's own, and the peer whose keys
/// it is read with.
pub fn bubble_peer<'a>(msg: &'a AppMessage, my_username: &str) -> (r: (bool, &'a String))
    ensures
        r.0 == (msg.from@ == my_username@),
        r.1 == (if r.0 { &msg.to } else { &msg.from }),
{
    let is_my = same_text(msg.from.as_str(), my_username);
    if is_my {
        (true, &msg.to)
    } else {
        (false, &msg.from)
    }
}

pub open spec fn sas_text(sas: Option<Seq<char>>) -> Seq<char> {
    match sas {
        Some(code) => "🔒 Код безопасности: "@ + code + " (совпадает = безопасно)"@,
        None => "⏳ Обмен ключами..."@,
    }
}

/// The security caption of a chat: the short authentication string when the
/// keys are known, else a note that they are being exchanged.
pub fn sas_caption(sas: Option<&str>) -> (out: String)
    ensures
        out@ == sas_text(
            match sas {
                Some(s) => Some(s@),
                None => None,
            },
        ),
{
    match sas {
        Some(code) => {
            proof {
                reveal_strlit("🔒 Код безопасности: ");
                reveal_strlit(" (совпадает = безопасно)");
            }
            concat3("🔒 Код безопасности: ", code, " (совпадает = безопасно)")
        },
        None => {
            proof { reveal_strlit("⏳ Обмен ключами..."); }
            "⏳ Обмен ключами...".to_owned()
        },
    }
}

/// The cached nickname of `name`, or `fallback`.
pub open spec fn nickname_or(st: AppState, name: Seq<char>, fallback: Seq<char>) -> Seq<char> {
    if st.nickname_cache@.contains_key(name) {
        st.nickname_cache@[name]
    } else {
        fallback
    }
}

/// The name a chat is shown under: the peer's cached nickname, else the
/// chat's name.
pub fn chat_display_name(st: &AppState, name: &str) -> (out: String)
    requires
        st.wf(),
    ensures
        out@ == nickname_or(*st, name@, name@),
{
    match st.nickname_cache.get(name) {
        Some(n) => n.clone(),
        None => name.to_owned(),
    }
}

/// The name a profile is shown under: the cached nickname, else a note that
/// it is loading.
pub fn profile_display_name(st: &AppState, name: &str) -> (out: String)
    requires
        st.wf(),
    ensures
        out@ == nickname_or(*st, name@, "Загрузка..."@),
{
    match st.nickname_cache.get(name) {
        Some(n) => n.clone(),
        None => {
            proof { reveal_strlit("Загрузка..."); }
            "Загрузка...".to_owned()
        },
    }
}

/// The cached bio of `name`, or nothing.
pub fn profile_bio(st: &AppState, name: &str) -> (out: String)
    requires
        st.wf(),
    ensures
        out@ == (if st.bio_cache@.contains_key(name@) {
            st.bio_cache@[name@]
        } else {
            Seq::empty()
        }),
{
    match st.bio_cache.get(name) {
        Some(b) => b.clone(),
        None => String::new(),
    }
}

/// Two decimal digits of `n` (below 100), as `%H` and `%M` write them.
pub open spec fn two_digits(n: nat) -> Seq<char> {
    seq![crate::text::digit_char(n / 10), crate::text::digit_char(n % 10)]
}

/// The UTC wall-clock time `HH:MM` of a timestamp (seconds since the epoch,
/// negative before it): the time of day is the Euclidean remainder by a day.
pub open spec fn utc_hh_mm(ts: int) -> Seq<char> {
    let day_secs = ts % 86400;
    two_digits((day_secs / 3600) as nat) + seq![':'] + two_digits(((day_secs % 3600) / 60) as nat)
}

/// The first second that `chrono` gives a date: January 1 of the year
/// -262143, at midnight UTC.
pub open spec fn chrono_first_second() -> int {
    -8_334_601_315_200
}

/// The last second that `chrono` gives a date: December 31, 262142, at
/// 23:59:59 UTC.
pub open spec fn chrono_last_second() -> int {
    8_210_266_876_799
}

/// `ts as i64`: the timestamp read as a signed number.
pub open spec fn as_signed(ts: u64) -> int {
    if ts <= i64::MAX {
        ts as int
    } else {
        ts - 0x1_0000_0000_0000_0000
    }
}

/// Whether `chrono` has a date for the second `ts as i64`.
pub open spec fn in_chrono_range(ts: u64) -> bool {
    chrono_first_second() <= as_signed(ts) <= chrono_last_second()
}

/// What the UTC clock shows for a timestamp: `HH:MM` where chrono has a
/// date, else nothing.
pub open spec fn utc_clock_text(ts: u64) -> Seq<char> {
    if in_chrono_range(ts) {
        utc_hh_mm(as_signed(ts))
    } else {
        Seq::empty()
    }
}

/// `chrono::DateTime::from_timestamp(ts as i64, 0)` formatted with
/// `"%H:%M"`: `from_timestamp` splits the seconds into days and the
/// Euclidean remainder and gives a date exactly for the days from chrono's
/// first date to its last, and `%H`, `%M` write the hour and minute
/// zero-padded.
#[verifier::external_body]
fn utc_clock(ts: u64) -> (out: Option<String>)
    ensures
        out is Some <==> in_chrono_range(ts),
        out matches Some(t) ==> t@ == utc_hh_mm(as_signed(ts)),
{
    chrono::DateTime::from_timestamp(ts as i64, 0).map(|dt| dt.format("%H:%M").to_string())
}

/// The time shown beside a chat in the list: the UTC clock time of its last
/// message, or nothing.
pub fn chat_last_time_label(st: &AppState, chat: &str) -> (out: String)
    ensures
        match last_time(st.messages@, me_of(*st), chat@, st.messages@.len() as int) {
            Some(t) => out@ == utc_clock_text(t),
            None => out@.len() == 0,
        },
{
    match last_activity(st, chat) {
        Some(t) => match utc_clock(t) {
            Some(text) => text,
            None => String::new(),
        },
        None => String::new(),
    }
}

/// Whether `s` reads as a clock time `HH:MM`: two digits, a colon and two
/// digits, an hour below 24 and a minute below 60.
pub open spec fn is_clock_text(s: Seq<char>) -> bool {
    &&& s.len() == 5
    &&& s[2] == ':'
    &&& exists|h: nat, m: nat| h < 24 && m < 60 && #[trigger] two_digits(h) == s.take(2) && #[trigger] two_digits(
        m,
    ) == s.skip(3)
}

/// Whether `s` is the clock time of the second `ts` at some offset from UTC
/// of less than a day, which is what a local time zone adds.
pub open spec fn clock_at_some_offset(s: Seq<char>, ts: u64) -> bool {
    exists|off: int| -86400 < off < 86400 && s == #[trigger] utc_hh_mm(as_signed(ts) + off)
}

pub open spec fn unknown_clock() -> Seq<char> {
    "??:??"@
}

/// `chrono::Local.timestamp_opt(ts as i64, 0).single()` formatted with
/// `"%H:%M"`. `timestamp_opt` gives a single local time exactly where
/// `from_timestamp` gives a date; the local time is the UTC time plus the
/// offset of the machine's time zone at that instant, a fixed offset of
/// less than a day. Which offset that is depends on the machine and is not
/// stated.
#[verifier::external_body]
fn local_clock(ts: u64) -> (out: Option<String>)
    ensures
        out is Some <==> in_chrono_range(ts),
        out matches Some(t) ==> is_clock_text(t@) && clock_at_some_offset(t@, ts),
{
    chrono::TimeZone::timestamp_opt(&chrono::Local, ts as i64, 0).single().map(|d| d.format("%H:%M").to_string())
}

/// The time shown in a message bubble: the local clock time of the message,
/// or `??:??` when it has none.
pub fn bubble_time_label(msg: &AppMessage) -> (out: String)
    ensures
        in_chrono_range(msg.timestamp) ==> is_clock_text(out@) && clock_at_some_offset(out@, msg.timestamp),
        !in_chrono_range(msg.timestamp) ==> out@ == unknown_clock(),
{
    match local_clock(msg.timestamp) {
        Some(t) => t,
        None => {
            proof { reveal_strlit("??:??"); }
            "??:??".to_owned()
        },
    }
}

/// The upper-case form of an ASCII letter; other characters stay.
pub open spec fn ascii_upper(c: char) -> char {
    if 'a' <= c && c <= 'z' {
        ((c as u32) - 32) as char
    } else {
        c
    }
}

/// What `char::to_uppercase` gives for `c`: one character or several.
pub uninterp spec fn unicode_upper(c: char) -> Seq<char>;

/// `c.to_uppercase().to_string()`, named by [`unicode_upper`]; std
/// documents that an ASCII character upper-cases as
/// `char::to_ascii_uppercase` does.
#[verifier::external_body]
fn upper_text(c: char) -> (out: String)
    ensures
        out@ == unicode_upper(c),
        (c as u32) < 128 ==> out@ == seq![ascii_upper(c)],
{
    c.to_uppercase().to_string()
}

/// The first character of a label, or `?` for an empty label.
pub open spec fn initial_char(label: Seq<char>) -> char {
    if label.len() > 0 {
        label[0]
    } else {
        '?'
    }
}

/// The letter an avatar without a picture shows for `label`.
pub open spec fn initial_of(label: Seq<char>) -> Seq<char> {
    unicode_upper(initial_char(label))
}

/// The letter an avatar without a picture shows: the label's first
/// character, upper-cased.
pub fn avatar_initial(label: &str) -> (out: String)
    ensures
        out@ == initial_of(label@),
        (initial_char(label@) as u32) < 128 ==> out@ == seq![ascii_upper(initial_char(label@))],
{
    let v = crate::text::chars_of(label);
    let c = if v.len() > 0 { v[0] } else { '?' };
    upper_text(c)
}

/// The bytes that the standard Base64 alphabet, with padding, decodes from
/// `s`; none when `s` is not valid Base64.
pub uninterp spec fn standard_base64(s: Seq<char>) -> Option<Seq<u8>>;

/// `base64::engine::general_purpose::STANDARD.decode(s)`, with the error
/// dropped; its result is named by [`standard_base64`].
#[verifier::external_body]
fn decode_base64(s: &str) -> (r: Option<Vec<u8>>)
    ensures
        match r {
            Some(v) => standard_base64(s@) == Some(v@),
            None => standard_base64(s@) is None,
        },
{
    match base64::Engine::decode(&base64::engine::general_purpose::STANDARD, s) {
        Ok(v) => Some(v),
        Err(_) => None,
    }
}

/// What an avatar shows.
#[derive(Clone, Debug)]
pub enum AvatarFace {
    /// The decoded picture.
    Picture(Vec<u8>),
    /// A letter in a circle.
    Initial(String),
}

/// What an avatar shows, given what its Base64 text decoded to: the picture
/// when there is one, else the initial of `label`.
pub fn face_from_decoded(decoded: Option<Vec<u8>>, label: &str) -> (f: AvatarFace)
    ensures
        match decoded {
            Some(bytes) => f matches AvatarFace::Picture(p) && p == bytes,
            None => f matches AvatarFace::Initial(s) && s@ == initial_of(label@),
        },
{
    match decoded {
        Some(bytes) => AvatarFace::Picture(bytes),
        None => AvatarFace::Initial(avatar_initial(label)),
    }
}

/// What the avatar with the Base64 picture `avatar_b64` (if any) and the
/// label `label` shows.
pub fn avatar_face(avatar_b64: Option<&str>, label: &str) -> (f: AvatarFace)
    ensures
        match avatar_b64 {
            Some(b) => match standard_base64(b@) {
                Some(bytes) => f matches AvatarFace::Picture(p) && p@ == bytes,
                None => f matches AvatarFace::Initial(s) && s@ == initial_of(label@),
            },
            None => f matches AvatarFace::Initial(s) && s@ == initial_of(label@),
        },
{
    let decoded = match avatar_b64 {
        Some(b) => decode_base64(b),
        None => None,
    };
    face_from_decoded(decoded, label)
}


/// The text that the standard Base64 alphabet, with padding, encodes `b` as.
pub uninterp spec fn standard_base64_text(b: Seq<u8>) -> Seq<char>;

/// `base64::engine::general_purpose::STANDARD.encode(b)`, named by
/// [`standard_base64_text`]; decoding the text with the same engine gives
/// the bytes back.
#[verifier::external_body]
fn encode_base64(b: &[u8]) -> (out: String)
    ensures
        out@ == standard_base64_text(b@),
        standard_base64(out@) == Some(b@),
{
    base64::Engine::encode(&base64::engine::general_purpose::STANDARD, b)
}

/// The Base64 text a picture is sent and stored as.
pub fn picture_base64(bytes: &Vec<u8>) -> (out: String)
    ensures
        out@ == standard_base64_text(bytes@),
        standard_base64(out@) == Some(bytes@),
{
    encode_base64(bytes.as_slice())
}

/// `String::from_utf8(b).ok()`: the text when the bytes are valid UTF-8.
#[verifier::external_body]
fn utf8_text(b: Vec<u8>) -> (r: Option<String>)
    ensures
        r is Some <==> vstd::utf8::valid_utf8(b@),
        r matches Some(t) ==> t@ == vstd::utf8::decode_utf8(b@),
{
    String::from_utf8(b).ok()
}

/// What a bubble shows: missing keys and a failed decryption are reported;
/// a plaintext shows as the content it parsed to, else as its UTF-8 text,
/// else as a format error.
pub fn bubble_outcome(keys_found: bool, plain: Option<Vec<u8>>, parsed: Option<MessageContent>) -> (r: Result<
    MessageContent,
    BubbleFailure,
>)
    ensures
        !keys_found ==> r == Err::<MessageContent, BubbleFailure>(BubbleFailure::Keys),
        keys_found && plain is None ==> r == Err::<MessageContent, BubbleFailure>(BubbleFailure::Decrypt),
        keys_found && plain is Some && parsed is Some ==> r == Ok::<MessageContent, BubbleFailure>(parsed->0),
        keys_found && plain is Some && parsed is None ==> match r {
            Ok(MessageContent::Text(t)) => vstd::utf8::valid_utf8(plain->0@) && t@ == vstd::utf8::decode_utf8(
                plain->0@,
            ),
            Err(f) => f == BubbleFailure::Format && !vstd::utf8::valid_utf8(plain->0@),
            _ => false,
        },
{
    if !keys_found {
        return Err(BubbleFailure::Keys);
    }
    match plain {
        None => Err(BubbleFailure::Decrypt),
        Some(bytes) => match parsed {
            Some(c) => Ok(c),
            None => match utf8_text(bytes) {
                Some(t) => Ok(MessageContent::Text(t)),
                None => Err(BubbleFailure::Format),
            },
        },
    }
}

pub open spec fn anonymous_name() -> Seq<char> {
    "Аноним"@
}

/// The cached Base64 avatar of `name`, if one is known.
pub open spec fn cached_avatar_of(st: AppState, name: Seq<char>) -> Option<Seq<char>> {
    if st.avatar_cache@.contains_key(name) {
        st.avatar_cache@[name]
    } else {
        None
    }
}

/// The cached Base64 avatar of `name`, if one is known.
pub fn cached_avatar(st: &AppState, name: &str) -> (out: Option<String>)
    requires
        st.wf(),
    ensures
        match out {
            Some(a) => cached_avatar_of(*st, name@) == Some(a@),
            None => cached_avatar_of(*st, name@) is None,
        },
{
    match st.avatar_cache.get(name) {
        Some(Some(a)) => Some(a.clone()),
        _ => None,
    }
}

/// The label of the signed-in user's own avatar: the user name, or
/// "Аноним" when signed out.
pub open spec fn own_label_of(st: AppState) -> Seq<char> {
    match st.username {
        Some(u) => u@,
        None => anonymous_name(),
    }
}

/// The label of the signed-in user's own avatar.
pub fn own_label(st: &AppState) -> (out: String)
    ensures
        out@ == own_label_of(*st),
{
    match &st.username {
        Some(u) => u.clone(),
        None => {
            proof { reveal_strlit("Аноним"); }
            "Аноним".to_owned()
        },
    }
}

/// The name shown at the top of the chat list: the own nickname, else the
/// user name, else "Аноним".
pub fn own_display_name(st: &AppState) -> (out: String)
    ensures
        out@ == match st.nickname {
            Some(n) => n@,
            None => own_label_of(*st),
        },
{
    match &st.nickname {
        Some(n) => n.clone(),
        None => own_label(st),
    }
}

/// The own avatar picture, as cached under the user name.
pub fn own_avatar(st: &AppState) -> (out: Option<String>)
    requires
        st.wf(),
    ensures
        match st.username {
            Some(u) => match out {
                Some(a) => cached_avatar_of(*st, u@) == Some(a@),
                None => cached_avatar_of(*st, u@) is None,
            },
            None => out is None,
        },
{
    match &st.username {
        Some(u) => cached_avatar(st, u.as_str()),
        None => None,
    }
}

/// Whether the profile of `name` is the signed-in user's own.
pub fn is_own_profile(st: &AppState, name: &str) -> (r: bool)
    ensures
        r == (st.username matches Some(u) && u@ == name@),
{
    match &st.username {
        Some(u) => same_text(u.as_str(), name),
        None => false,
    }
}

/// The name shown in the profile editor: the own nickname, or "Аноним".
pub open spec fn edit_profile_name_of(st: AppState) -> Seq<char> {
    match st.nickname {
        Some(n) => n@,
        None => anonymous_name(),
    }
}

/// The name shown in the profile editor.
pub fn edit_profile_name(st: &AppState) -> (out: String)
    ensures
        out@ == edit_profile_name_of(*st),
{
    match &st.nickname {
        Some(n) => n.clone(),
        None => {
            proof { reveal_strlit("Аноним"); }
            "Аноним".to_owned()
        },
    }
}

/// The avatar of the profile editor: the picture being edited when it
/// decodes, else the letter of the name shown in the editor.
pub fn edit_profile_face(st: &AppState) -> (f: AvatarFace)
    ensures
        match st.edit_avatar_base64 {
            Some(b) => match standard_base64(b@) {
                Some(bytes) => f matches AvatarFace::Picture(p) && p@ == bytes,
                None => f matches AvatarFace::Initial(s) && s@ == initial_of(edit_profile_name_of(*st)),
            },
            None => f matches AvatarFace::Initial(s) && s@ == initial_of(edit_profile_name_of(*st)),
        },
{
    let name = edit_profile_name(st);
    let picture = match &st.edit_avatar_base64 {
        Some(b) => Some(b.as_str()),
        None => None,
    };
    avatar_face(picture, name.as_str())
}

/// The page the window shows under any overlay.
#[derive(Clone, Debug)]
pub enum BasePage {
    Welcome,
    Auth { is_register: bool, nickname: String, username: String, password: String },
    Profile { username: String },
    EditProfile,
    /// The chat list beside the chat or new-chat pane.
    AppShell,
}

/// What the window draws: the page, then the settings panel over it when
/// shown, then the expanded image on top when one is open.
#[derive(Clone, Debug)]
pub struct ScreenPlan {
    pub base: BasePage,
    pub settings_overlay: bool,
    pub expanded_image: Option<u128>,
}

/// The page a screen is drawn on.
pub open spec fn base_page_of(s: Screen) -> BasePage {
    match s {
        Screen::MainMenu { .. } => BasePage::Welcome,
        Screen::AuthForm { is_register, nickname, username, password, .. } => BasePage::Auth {
            is_register,
            nickname,
            username,
            password,
        },
        Screen::UserProfile { username } => BasePage::Profile { username },
        Screen::EditProfile => BasePage::EditProfile,
        _ => BasePage::AppShell,
    }
}

/// What the window draws for the model.
pub fn screen_plan(m: &Model) -> (p: ScreenPlan)
    ensures
        p.base == base_page_of(m.state.screen),
        p.settings_overlay == m.show_settings,
        p.expanded_image == m.expanded_image_id,
{
    let base = match &m.state.screen {
        Screen::MainMenu { .. } => BasePage::Welcome,
        Screen::AuthForm { is_register, nickname, username, password, .. } => BasePage::Auth {
            is_register: *is_register,
            nickname: nickname.clone(),
            username: username.clone(),
            password: password.clone(),
        },
        Screen::UserProfile { username } => BasePage::Profile { username: username.clone() },
        Screen::EditProfile => BasePage::EditProfile,
        _ => BasePage::AppShell,
    };
    ScreenPlan { base, settings_overlay: m.show_settings, expanded_image: m.expanded_image_id }
}
}
