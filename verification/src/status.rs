//! The health-status document.
//!
//! The recorder reads the existing status document (substituting an empty
//! one when the file is absent, unparsable, or not a JSON object),
//! replaces only the `server` entry with a freshly built object carrying
//! the run state, the process id, capture-time stamps and an optional
//! error message, and renders the whole document again. Entries written
//! by other tools are preserved untouched.

use vstd::prelude::*;

use crate::clock::now_rfc3339;
use crate::jsonval::{
    json_doc_of, json_entries, json_insert, json_is_null, json_map_to_text_pretty, json_new_map,
    json_null, json_object, json_object_value, json_pretty_text_of, json_string,
    json_string_value, json_u64, json_u64_value, parse_json_object,
};

verus! {

/// The run state recorded in the status document.
#[derive(Clone, Copy, PartialEq, Eq, Structural)]
pub enum RunStatus {
    Running,
    Error,
    Stopped,
}

/// The label each run state is recorded under.
pub open spec fn status_label(s: RunStatus) -> Seq<char> {
    match s {
        RunStatus::Running => "running"@,
        RunStatus::Error => "error"@,
        RunStatus::Stopped => "stopped"@,
    }
}

fn status_label_str(s: RunStatus) -> (r: &'static str)
    ensures
        r@ == status_label(s),
{
    match s {
        RunStatus::Running => "running",
        RunStatus::Error => "error",
        RunStatus::Stopped => "stopped",
    }
}

/// The recorded `error` entry: the given message as a JSON string, or the
/// JSON null when there is none.
pub open spec fn error_value_ok(v: serde_json::Value, err: Option<Seq<char>>) -> bool {
    match err {
        Some(e) => v == json_string_value(e),
        None => json_is_null(v),
    }
}

/// The entries of the freshly built `server` object.
pub open spec fn server_entries(
    label: Seq<char>,
    pid: u32,
    now: Seq<char>,
    errv: serde_json::Value,
) -> Map<Seq<char>, serde_json::Value> {
    map![
        "status"@ => json_string_value(label),
        "pid"@ => json_u64_value(pid as u64),
        "startedAt"@ => json_string_value(now),
        "lastEvent"@ => json_string_value(now),
        "error"@ => errv,
    ]
}

/// The entries the existing document contributes: its top-level object,
/// or nothing when there is no parsable object.
pub open spec fn prior_entries(existing: Option<Seq<char>>) -> Map<Seq<char>, serde_json::Value> {
    match existing {
        Some(text) => match json_doc_of(text) {
            Some(m) => m,
            None => Map::empty(),
        },
        None => Map::empty(),
    }
}

/// The entries of the updated document: the prior entries with only
/// `server` replaced.
pub open spec fn status_doc_entries(
    existing: Option<Seq<char>>,
    label: Seq<char>,
    pid: u32,
    now: Seq<char>,
    errv: serde_json::Value,
) -> Map<Seq<char>, serde_json::Value> {
    prior_entries(existing).insert(
        "server"@,
        json_object_value(server_entries(label, pid, now, errv)),
    )
}

pub open spec fn opt_str_view(o: Option<&str>) -> Option<Seq<char>> {
    match o {
        Some(s) => Some(s@),
        None => None,
    }
}

/// Builds the updated status document text from the existing document's
/// text (if any), the run state, the process id, one timestamp used for
/// both `startedAt` and `lastEvent`, and an optional error message.
pub fn status_text(
    existing: Option<&str>,
    status: RunStatus,
    pid: u32,
    now: &str,
    error: Option<&str>,
) -> (r: String)
    ensures
        exists|errv: serde_json::Value|
            #[trigger] error_value_ok(errv, opt_str_view(error)) && r@ == json_pretty_text_of(
                status_doc_entries(
                    opt_str_view(existing),
                    status_label(status),
                    pid,
                    now@,
                    errv,
                ),
            ),
{
    let mut doc = match existing {
        Some(s) => match parse_json_object(s) {
            Some(m) => m,
            None => json_new_map(),
        },
        None => json_new_map(),
    };
    proof {
        assert(json_entries(doc) =~= prior_entries(opt_str_view(existing)));
    }
    let mut server = json_new_map();
    json_insert(&mut server, "status", json_string(status_label_str(status)));
    json_insert(&mut server, "pid", json_u64(pid as u64));
    json_insert(&mut server, "startedAt", json_string(now));
    json_insert(&mut server, "lastEvent", json_string(now));
    let errv = match error {
        Some(e) => json_string(e),
        None => json_null(),
    };
    let ghost gerrv = errv;
    json_insert(&mut server, "error", errv);
    proof {
        lemma_status_keys_distinct();
        assert(json_entries(server) =~= server_entries(
            status_label(status),
            pid,
            now@,
            gerrv,
        ));
    }
    let obj = json_object(server);
    json_insert(&mut doc, "server", obj);
    let out = json_map_to_text_pretty(&doc);
    proof {
        assert(json_entries(doc) =~= status_doc_entries(
            opt_str_view(existing),
            status_label(status),
            pid,
            now@,
            gerrv,
        ));
        assert(error_value_ok(gerrv, opt_str_view(error)));
    }
    out
}

/// Records the given run state with a capture-time timestamp, called on
/// every significant transition of the watcher. The timestamp comes from
/// the clock, so the contract states the document's shape for some
/// timestamp rather than a particular one.
pub fn updated_status_text(
    existing: Option<&str>,
    status: RunStatus,
    pid: u32,
    error: Option<&str>,
) -> (r: String)
    ensures
        exists|now: Seq<char>, errv: serde_json::Value|
            #[trigger] error_value_ok(errv, opt_str_view(error)) && r@ == json_pretty_text_of(
                #[trigger] status_doc_entries(
                    opt_str_view(existing),
                    status_label(status),
                    pid,
                    now,
                    errv,
                ),
            ),
{
    let now = now_rfc3339();
    status_text(existing, status, pid, now.as_str(), error)
}

/// The five keys of the server object are pairwise distinct.
proof fn lemma_status_keys_distinct()
    ensures
        "status"@ != "pid"@ && "status"@ != "startedAt"@ && "status"@ != "lastEvent"@ && "status"@
            != "error"@,
        "pid"@ != "startedAt"@ && "pid"@ != "lastEvent"@ && "pid"@ != "error"@,
        "startedAt"@ != "lastEvent"@ && "startedAt"@ != "error"@,
        "lastEvent"@ != "error"@,
{
    reveal_strlit("status");
    reveal_strlit("pid");
    reveal_strlit("startedAt");
    reveal_strlit("lastEvent");
    reveal_strlit("error");
    assert("status"@.len() == 6);
    assert("pid"@.len() == 3);
    assert("startedAt"@.len() == 9);
    assert("lastEvent"@.len() == 9);
    assert("error"@.len() == 5);
    assert("startedAt"@[0] == 's');
    assert("lastEvent"@[0] == 'l');
}

/// A status update replaces only the `server` entry: every other entry of
/// the prior document survives unchanged, and the updated document holds
/// the freshly built server object under `server`.
pub proof fn lemma_siblings_preserved(
    existing: Option<Seq<char>>,
    label: Seq<char>,
    pid: u32,
    now: Seq<char>,
    errv: serde_json::Value,
)
    ensures
        forall|k: Seq<char>|
            k != "server"@ && #[trigger] prior_entries(existing).contains_key(k) ==> {
                &&& status_doc_entries(existing, label, pid, now, errv).contains_key(k)
                &&& status_doc_entries(existing, label, pid, now, errv)[k] == prior_entries(
                    existing,
                )[k]
            },
        status_doc_entries(existing, label, pid, now, errv).contains_key("server"@),
        status_doc_entries(existing, label, pid, now, errv)["server"@] == json_object_value(
            server_entries(label, pid, now, errv),
        ),
{
}

} // verus!
