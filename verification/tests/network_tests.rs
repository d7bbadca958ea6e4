use anonpeer::network::{command_payload, payload_event, ClientCommand, Link, LinkAction, LinkEvent, Phase, ServerEvent};
use anonpeer::protocol::{AppMessage, ClientPayload, ServerPayload, UserInfo};

fn message() -> AppMessage {
    AppMessage { id: 1, from: "a".into(), to: "b".into(), timestamp: 2, ciphertext: vec![3], nonce: vec![], signature: vec![], salt: vec![] }
}

#[test]
fn commands_become_payloads() {
    let p = command_payload(ClientCommand::Register("N".into(), "u".into(), "p".into(), vec![1], vec![2]));
    assert!(matches!(p, ClientPayload::Register { nickname, username, password, ed_public, x25519_public }
        if nickname == "N" && username == "u" && password == "p" && ed_public == vec![1] && x25519_public == vec![2]));
    let p = command_payload(ClientCommand::Login("u".into(), "p".into(), vec![1], vec![2]));
    assert!(matches!(p, ClientPayload::Login { username, .. } if username == "u"));
    assert!(matches!(command_payload(ClientCommand::Send(message())), ClientPayload::SendMessage { msg } if msg.id == 1));
    assert!(matches!(command_payload(ClientCommand::FetchPeerKeys("t".into())), ClientPayload::RequestKeys { target } if target == "t"));
    assert!(matches!(command_payload(ClientCommand::SearchUser("s".into())), ClientPayload::SearchUser { username } if username == "s"));
    assert!(matches!(command_payload(ClientCommand::SearchPrefix("pr".into())), ClientPayload::SearchPrefix { prefix } if prefix == "pr"));
    assert!(matches!(command_payload(ClientCommand::ValidateSession("sid".into())), ClientPayload::ValidateSession { session_id } if session_id == "sid"));
    assert!(matches!(command_payload(ClientCommand::RequestProfile("r".into())), ClientPayload::RequestProfile { username } if username == "r"));
    assert!(matches!(command_payload(ClientCommand::UpdateProfile { bio: Some("b".into()), avatar_base64: None }),
        ClientPayload::UpdateProfile { bio: Some(b), avatar_base64: None } if b == "b"));
}

#[test]
fn payloads_become_events() {
    assert!(matches!(payload_event(ServerPayload::AuthOk { session_id: "s".into() }), ServerEvent::AuthOk(s) if s == "s"));
    assert!(matches!(payload_event(ServerPayload::AuthErr("e".into())), ServerEvent::AuthErr(e) if e == "e"));
    assert!(matches!(payload_event(ServerPayload::Forward { msg: message() }), ServerEvent::NewMessage(m) if m.id == 1));
    assert!(matches!(payload_event(ServerPayload::PeerKeys { target: "t".into(), ed_public: vec![1], x25519_public: vec![2] }),
        ServerEvent::PeerKeys { target, .. } if target == "t"));
    assert!(matches!(payload_event(ServerPayload::UserSearchResult { username: "u".into(), exists: true }),
        ServerEvent::UserSearchResult { exists: true, .. }));
    let info = UserInfo { username: "u".into(), nickname: "n".into(), bio: String::new(), avatar_base64: None, last_seen: None, server_domain: None };
    assert!(matches!(payload_event(ServerPayload::SearchResults { matches: vec![info.clone()] }), ServerEvent::SearchResults(v) if v.len() == 1));
    assert!(matches!(payload_event(ServerPayload::Profile { user: info }), ServerEvent::ProfileReceived(u) if u.username == "u"));
    assert!(matches!(payload_event(ServerPayload::ProfileUpdated), ServerEvent::ProfileUpdated));
}

#[test]
fn connection_loop_follows_address_changes() {
    let mut link = Link::new("ws://a/ws".to_string());
    assert!(matches!(link.start(), LinkAction::Connect(u) if u == "ws://a/ws"));
    assert!(matches!(link.step(LinkEvent::ConnectFailed), LinkAction::ReportDisconnect));
    assert_eq!(link.phase, Phase::Offline);
    // Any other command while offline retries the same address.
    assert!(matches!(link.step(LinkEvent::Command(ClientCommand::SearchUser("x".into()))), LinkAction::Connect(u) if u == "ws://a/ws"));
    assert!(matches!(link.step(LinkEvent::ConnectFailed), LinkAction::ReportDisconnect));
    assert!(matches!(link.step(LinkEvent::Command(ClientCommand::UpdateServerAddress("ws://b/ws".into()))), LinkAction::Connect(u) if u == "ws://b/ws"));
    assert_eq!(link.url, "ws://b/ws");
    assert!(matches!(link.step(LinkEvent::Connected), LinkAction::StartSession));
    assert_eq!(link.phase, Phase::Online);
    assert!(matches!(link.step(LinkEvent::Command(ClientCommand::FetchPeerKeys("t".into()))), LinkAction::Forward(ClientPayload::RequestKeys { target }) if target == "t"));
    assert!(matches!(link.step(LinkEvent::Command(ClientCommand::UpdateServerAddress("ws://c/ws".into()))), LinkAction::Reconnect(u) if u == "ws://c/ws"));
    assert_eq!(link.phase, Phase::Connecting);
    assert!(matches!(link.step(LinkEvent::Connected), LinkAction::StartSession));
    assert!(matches!(link.step(LinkEvent::ForwardFailed), LinkAction::Shutdown));
    assert_eq!(link.phase, Phase::Stopped);
    assert!(matches!(link.step(LinkEvent::Connected), LinkAction::Idle));
    assert_eq!(link.phase, Phase::Stopped);
}

#[test]
fn connection_loop_ends_when_commands_end() {
    let mut link = Link::new("u".to_string());
    link.step(LinkEvent::ConnectFailed);
    assert!(matches!(link.step(LinkEvent::ChannelClosed), LinkAction::Shutdown));
    let mut link = Link::new("u".to_string());
    link.step(LinkEvent::Connected);
    assert!(matches!(link.step(LinkEvent::ChannelClosed), LinkAction::Shutdown));
    let mut link = Link::new("u".to_string());
    assert!(matches!(link.step(LinkEvent::Command(ClientCommand::SearchUser("x".into()))), LinkAction::Idle));
}
