use workplace_watch::tail::{
    count_nonempty_lines, extract_lines, initial_tail_state, plan_pass, process_lines, PassPlan,
    TailState,
};

#[test]
fn extract_lines_keeps_only_nonblank_lines() {
    let lines = extract_lines("first\n\n   \nsecond\r\nthird");
    assert_eq!(lines, vec!["first", "second", "third"]);
}

#[test]
fn extract_lines_on_empty_chunk_is_empty() {
    assert!(extract_lines("").is_empty());
    assert!(extract_lines("\n\n  \n").is_empty());
}

#[test]
fn extract_lines_keeps_lines_verbatim() {
    let lines = extract_lines("  padded  \nx\n");
    assert_eq!(lines, vec!["  padded  ", "x"]);
}

#[test]
fn count_nonempty_lines_matches_extraction() {
    assert_eq!(count_nonempty_lines("a\nb\n\nc"), 3);
    assert_eq!(count_nonempty_lines(""), 0);
}

#[test]
fn plan_pass_reads_exactly_the_new_range() {
    let mut ts = TailState { byte_offset: 10, line_count: 4 };
    let plan = plan_pass(&mut ts, 25);
    assert_eq!(plan, PassPlan::Read { from: 10, to: 25 });
    assert_eq!(ts, TailState { byte_offset: 10, line_count: 4 });
}

#[test]
fn plan_pass_is_idle_when_nothing_changed() {
    let mut ts = TailState { byte_offset: 10, line_count: 4 };
    assert_eq!(plan_pass(&mut ts, 10), PassPlan::UpToDate);
    assert_eq!(ts, TailState { byte_offset: 10, line_count: 4 });
}

#[test]
fn plan_pass_resets_on_truncation_without_reading() {
    let mut ts = TailState { byte_offset: 10, line_count: 4 };
    assert_eq!(plan_pass(&mut ts, 3), PassPlan::Truncated);
    assert_eq!(ts, TailState { byte_offset: 0, line_count: 0 });
    // The shrunken content is picked up only on the next pass.
    assert_eq!(plan_pass(&mut ts, 3), PassPlan::Read { from: 0, to: 3 });
}

#[test]
fn batch_emits_one_event_per_matching_line_with_increasing_numbers() {
    let mut ts = initial_tail_state(0, 0);
    let lines = extract_lines("[a-to-b]: one\nnot a message\n[c-to-d]: two\n[e-to-f]: three");
    let msgs = process_lines(&mut ts, &lines, 64);
    assert_eq!(msgs.len(), 3);
    assert_eq!(msgs[0].line_number, 1);
    assert_eq!(msgs[1].line_number, 3);
    assert_eq!(msgs[2].line_number, 4);
    assert_eq!(msgs[0].message, "one");
    assert_eq!(msgs[2].sender, "e");
    assert_eq!(ts.byte_offset, 64);
    assert_eq!(ts.line_count, 4);
}

#[test]
fn repeated_notifications_for_one_append_emit_nothing_new() {
    let mut ts = initial_tail_state(0, 0);
    let lines = extract_lines("[a-to-b]: one");
    let msgs = process_lines(&mut ts, &lines, 14);
    assert_eq!(msgs.len(), 1);
    // A second notification for the same append finds nothing to read.
    assert_eq!(plan_pass(&mut ts, 14), PassPlan::UpToDate);
}

#[test]
fn truncation_restarts_numbering_at_one() {
    let mut ts = TailState { byte_offset: 100, line_count: 7 };
    assert_eq!(plan_pass(&mut ts, 0), PassPlan::Truncated);
    let lines = extract_lines("[a-to-b]: fresh start");
    let msgs = process_lines(&mut ts, &lines, 22);
    assert_eq!(msgs.len(), 1);
    assert_eq!(msgs[0].line_number, 1);
}

#[test]
fn startup_emits_nothing_for_existing_content() {
    let existing = "[a-to-b]: old one\n[c-to-d]: old two\n";
    let k = count_nonempty_lines(existing);
    assert_eq!(k, 2);
    let mut ts = initial_tail_state(existing.len() as u64, k);
    // Until the file grows, no pass reads anything.
    assert_eq!(plan_pass(&mut ts, existing.len() as u64), PassPlan::UpToDate);
    // The first genuinely new line continues the numbering after the K old ones.
    let lines = extract_lines("[x-to-y]: new");
    let msgs = process_lines(&mut ts, &lines, existing.len() as u64 + 14);
    assert_eq!(msgs.len(), 1);
    assert_eq!(msgs[0].line_number, 3);
}
