use workplace_watch::emit::message_json_line;
use workplace_watch::parser::parse_chat_line;
use workplace_watch::watch::{next_directive, Directive, WatchEvent};

#[test]
fn emitted_json_carries_every_field() {
    let mut msg = parse_chat_line("[coder-to-auditor] @ [qa, ops]: All done").unwrap();
    msg.line_number = 12;
    let line = message_json_line(&msg);
    let v: serde_json::Value = serde_json::from_str(&line).expect("emitted line is valid JSON");
    assert_eq!(v.get("sender").unwrap().as_str(), Some("coder"));
    assert_eq!(v.get("recipient").unwrap().as_str(), Some("auditor"));
    assert_eq!(v.get("message").unwrap().as_str(), Some("All done"));
    assert_eq!(v.get("line_number").unwrap().as_u64(), Some(12));
    let bc = v.get("broadcast").unwrap().as_array().unwrap();
    assert_eq!(bc.len(), 2);
    assert_eq!(bc[0].as_str(), Some("qa"));
    assert_eq!(bc[1].as_str(), Some("ops"));
    assert_eq!(v.get("timestamp").unwrap().as_str(), Some(msg.timestamp.as_str()));
}

#[test]
fn emitted_json_round_trip_preserves_the_parse() {
    let line = "[agent1-to-agent2]: Check [x]: tricky \"quotes\" and \\ slashes";
    let msg = parse_chat_line(line).unwrap();
    let out = message_json_line(&msg);
    let v: serde_json::Value = serde_json::from_str(&out).unwrap();
    assert_eq!(v.get("sender").unwrap().as_str(), Some(msg.sender.as_str()));
    assert_eq!(v.get("recipient").unwrap().as_str(), Some(msg.recipient.as_str()));
    assert_eq!(v.get("message").unwrap().as_str(), Some(msg.message.as_str()));
    assert_eq!(
        v.get("message").unwrap().as_str(),
        Some("Check [x]: tricky \"quotes\" and \\ slashes")
    );
}

#[test]
fn empty_broadcast_emits_an_empty_array() {
    let msg = parse_chat_line("[a-to-b]: hi").unwrap();
    let out = message_json_line(&msg);
    let v: serde_json::Value = serde_json::from_str(&out).unwrap();
    assert_eq!(v.get("broadcast").unwrap().as_array().unwrap().len(), 0);
}

#[test]
fn directives_follow_the_loop_policy() {
    assert!(matches!(next_directive(true, WatchEvent::Changed), Directive::ProcessPass));
    assert!(matches!(next_directive(true, WatchEvent::Heartbeat), Directive::Idle));
    assert!(matches!(next_directive(true, WatchEvent::Disconnected), Directive::Shutdown));
    assert!(matches!(next_directive(false, WatchEvent::Changed), Directive::Shutdown));
    match next_directive(true, WatchEvent::WatchFailed(String::from("inotify gone"))) {
        Directive::RecordError(m) => assert_eq!(m, "Watch error: inotify gone"),
        _ => panic!("a notification error must be recorded, not fatal"),
    }
}
