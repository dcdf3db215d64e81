use workplace_watch::parser::parse_chat_line;

#[test]
fn test_parse_simple_message() {
    let line = "[coder-to-auditor]: Please inspect the auth module";
    let msg = parse_chat_line(line).unwrap();
    assert_eq!(msg.sender, "coder");
    assert_eq!(msg.recipient, "auditor");
    assert!(msg.broadcast.is_empty());
    assert_eq!(msg.message, "Please inspect the auth module");
}

#[test]
fn test_parse_broadcast_message() {
    let line = "[auditor-to-coder] @ [developer, manager]: Approved with minor changes";
    let msg = parse_chat_line(line).unwrap();
    assert_eq!(msg.sender, "auditor");
    assert_eq!(msg.recipient, "coder");
    assert_eq!(msg.broadcast, vec!["developer", "manager"]);
    assert_eq!(msg.message, "Approved with minor changes");
}

#[test]
fn test_parse_single_broadcast() {
    let line = "[coder-to-auditor] @ [developer]: Done with implementation";
    let msg = parse_chat_line(line).unwrap();
    assert_eq!(msg.broadcast, vec!["developer"]);
}

#[test]
fn test_parse_invalid_line() {
    assert!(parse_chat_line("just some random text").is_none());
    assert!(parse_chat_line("").is_none());
    assert!(parse_chat_line("# Header").is_none());
}

#[test]
fn test_parse_with_special_chars_in_message() {
    let line = "[agent1-to-agent2]: Check `src/main.rs` — found 3 issues!";
    let msg = parse_chat_line(line).unwrap();
    assert_eq!(msg.message, "Check `src/main.rs` — found 3 issues!");
}

#[test]
fn embedded_colons_and_brackets_stay_verbatim() {
    let msg = parse_chat_line("[agent1-to-agent2]: Check [x] — found 3 issues!").unwrap();
    assert_eq!(msg.message, "Check [x] — found 3 issues!");
    let msg = parse_chat_line("[a-to-b]: key: value: more").unwrap();
    assert_eq!(msg.message, "key: value: more");
}

#[test]
fn outer_whitespace_is_trimmed() {
    let msg = parse_chat_line("   [coder-to-auditor]: hi   ").unwrap();
    assert_eq!(msg.sender, "coder");
    assert_eq!(msg.recipient, "auditor");
    assert_eq!(msg.message, "hi");
}

#[test]
fn sender_may_contain_to_runs() {
    // The split is the rightmost "-to-" leaving both sides non-empty.
    let msg = parse_chat_line("[a-to-b-to-c]: x").unwrap();
    assert_eq!(msg.sender, "a-to-b");
    assert_eq!(msg.recipient, "c");
}

#[test]
fn empty_or_blank_broadcast_groups_yield_empty_lists() {
    let msg = parse_chat_line("[a-to-b] @ []: x").unwrap();
    assert!(msg.broadcast.is_empty());
    let msg = parse_chat_line("[a-to-b] @ [ , ]: x").unwrap();
    assert!(msg.broadcast.is_empty());
    let msg = parse_chat_line("[a-to-b] @ [ one ,, two ]: x").unwrap();
    assert_eq!(msg.broadcast, vec!["one", "two"]);
}

#[test]
fn malformed_headers_do_not_match() {
    assert!(parse_chat_line("[a-to-]: x").is_none());
    assert!(parse_chat_line("[-to-b]: x").is_none());
    assert!(parse_chat_line("[-to-]: x").is_none());
    assert!(parse_chat_line("[ab]: x").is_none());
    assert!(parse_chat_line("[a b-to-c]: x").is_none());
    assert!(parse_chat_line("[a-to-b] x").is_none());
    assert!(parse_chat_line("[a-to-b]:").is_none());
    assert!(parse_chat_line("[a-to-b]:   ").is_none());
    assert!(parse_chat_line("[a-to-b] @ [x: y").is_none());
    assert!(parse_chat_line("[a-to-b] @ [x]extra: y").is_none());
    assert!(parse_chat_line("a [b-to-c]: y").is_none());
}

#[test]
fn parsing_is_repeatable_on_the_same_line() {
    let line = "[coder-to-auditor] @ [qa]: same result twice";
    let first = parse_chat_line(line).unwrap();
    let second = parse_chat_line(line).unwrap();
    assert_eq!(first.sender, second.sender);
    assert_eq!(first.recipient, second.recipient);
    assert_eq!(first.broadcast, second.broadcast);
    assert_eq!(first.message, second.message);
    assert!(parse_chat_line("not a message").is_none());
    assert!(parse_chat_line("not a message").is_none());
}

#[test]
fn parser_leaves_line_number_unset() {
    let msg = parse_chat_line("[a-to-b]: x").unwrap();
    assert_eq!(msg.line_number, 0);
}
