use workplace_watch::status::{status_text, updated_status_text, RunStatus};

fn parse(s: &str) -> serde_json::Value {
    serde_json::from_str(s).expect("status text is valid JSON")
}

#[test]
fn unrelated_keys_survive_a_status_update() {
    let existing = "{\"other\": 123, \"tools\": {\"a\": true}, \"server\": {\"status\": \"old\"}}";
    let out = updated_status_text(Some(existing), RunStatus::Running, 42, None);
    let v = parse(&out);
    assert_eq!(v.get("other").unwrap().as_i64(), Some(123));
    assert_eq!(v.get("tools").unwrap().get("a").unwrap().as_bool(), Some(true));
    let server = v.get("server").unwrap();
    assert_eq!(server.get("status").unwrap().as_str(), Some("running"));
    assert_eq!(server.get("pid").unwrap().as_u64(), Some(42));
    assert!(server.get("error").unwrap().is_null());
}

#[test]
fn missing_document_starts_empty() {
    let out = updated_status_text(None, RunStatus::Running, 7, None);
    let v = parse(&out);
    assert_eq!(v.as_object().unwrap().len(), 1);
    assert_eq!(v.get("server").unwrap().get("status").unwrap().as_str(), Some("running"));
}

#[test]
fn corrupt_document_is_replaced_by_an_empty_one() {
    let out = updated_status_text(Some("not json at all {"), RunStatus::Error, 7, Some("boom"));
    let v = parse(&out);
    assert_eq!(v.as_object().unwrap().len(), 1);
    let server = v.get("server").unwrap();
    assert_eq!(server.get("status").unwrap().as_str(), Some("error"));
    assert_eq!(server.get("error").unwrap().as_str(), Some("boom"));
}

#[test]
fn non_object_document_is_replaced_by_an_empty_one() {
    let out = updated_status_text(Some("[1, 2, 3]"), RunStatus::Stopped, 7, None);
    let v = parse(&out);
    assert_eq!(v.as_object().unwrap().len(), 1);
    assert_eq!(v.get("server").unwrap().get("status").unwrap().as_str(), Some("stopped"));
}

#[test]
fn both_timestamps_carry_the_given_instant() {
    let out = status_text(None, RunStatus::Running, 9, "2024-01-02T03:04:05+00:00", None);
    let v = parse(&out);
    let server = v.get("server").unwrap();
    assert_eq!(server.get("startedAt").unwrap().as_str(), Some("2024-01-02T03:04:05+00:00"));
    assert_eq!(server.get("lastEvent").unwrap().as_str(), Some("2024-01-02T03:04:05+00:00"));
}

#[test]
fn each_run_state_has_its_label() {
    for (status, label) in [
        (RunStatus::Running, "running"),
        (RunStatus::Error, "error"),
        (RunStatus::Stopped, "stopped"),
    ] {
        let out = updated_status_text(None, status, 1, None);
        let v = parse(&out);
        assert_eq!(v.get("server").unwrap().get("status").unwrap().as_str(), Some(label));
    }
}
