//! Rendering one recognized message as one JSON line.

use vstd::prelude::*;

use crate::jsonval::{
    json_array, json_array_value, json_entries, json_insert, json_map_to_text, json_new_map,
    json_string, json_string_value, json_text_of, json_u64, json_u64_value,
};
use crate::parser::{message_models, parse_line_spec, ChatMessage, MessageFields};

verus! {

/// The JSON values of the broadcast list, one string per entry, in order.
pub open spec fn broadcast_values(b: Seq<Seq<char>>) -> Seq<serde_json::Value> {
    b.map_values(|e: Seq<char>| json_string_value(e))
}

/// The entries of the JSON object emitted for one message.
pub open spec fn message_entries(m: ChatMessage) -> Map<Seq<char>, serde_json::Value> {
    map![
        "timestamp"@ => json_string_value(m.timestamp@),
        "sender"@ => json_string_value(m.sender@),
        "recipient"@ => json_string_value(m.recipient@),
        "broadcast"@ => json_array_value(broadcast_values(m.broadcast.deep_view())),
        "message"@ => json_string_value(m.message@),
        "line_number"@ => json_u64_value(m.line_number as u64),
    ]
}

/// Renders one message as the text of a JSON object holding exactly its
/// timestamp, sender, recipient, broadcast list, message and line number.
pub fn message_json_line(m: &ChatMessage) -> (r: String)
    ensures
        r@ == json_text_of(message_entries(*m)),
{
    let ghost bview = m.broadcast.deep_view();
    let mut vals: Vec<serde_json::Value> = Vec::new();
    let mut i: usize = 0;
    let n = m.broadcast.len();
    assert(vals@ =~= broadcast_values(bview.take(0)));
    while i < n
        invariant
            0 <= i <= n,
            n == m.broadcast@.len(),
            bview == m.broadcast.deep_view(),
            vals@ == broadcast_values(bview.take(i as int)),
        decreases n - i,
    {
        let ghost prev = vals@;
        vals.push(json_string(m.broadcast[i].as_str()));
        proof {
            assert(bview[i as int] == m.broadcast@[i as int]@);
            assert(vals@ =~= broadcast_values(bview.take(i + 1)));
        }
        i = i + 1;
    }
    assert(bview.take(n as int) =~= bview);
    let arr = json_array(vals);
    let mut doc = json_new_map();
    json_insert(&mut doc, "timestamp", json_string(m.timestamp.as_str()));
    json_insert(&mut doc, "sender", json_string(m.sender.as_str()));
    json_insert(&mut doc, "recipient", json_string(m.recipient.as_str()));
    json_insert(&mut doc, "broadcast", arr);
    json_insert(&mut doc, "message", json_string(m.message.as_str()));
    json_insert(&mut doc, "line_number", json_u64(m.line_number as u64));
    proof {
        reveal_strlit("timestamp");
        reveal_strlit("sender");
        reveal_strlit("recipient");
        reveal_strlit("broadcast");
        reveal_strlit("message");
        reveal_strlit("line_number");
        assert(json_entries(doc) =~= message_entries(*m));
    }
    json_map_to_text(&doc)
}

/// For every line matching the grammar, parsing and then rendering
/// preserves the sender, recipient, broadcast list and message exactly:
/// the emitted object's entries are precisely the strings the grammar
/// assigns to the line. Non-matching lines never reach the renderer, and
/// what a line parses to is a function of its characters alone.
pub proof fn lemma_roundtrip_preserves_fields(line: Seq<char>, m: ChatMessage)
    requires
        parse_line_spec(line) is Some,
        message_models(m, parse_line_spec(line)->Some_0),
    ensures
        message_entries(m)["sender"@] == json_string_value(parse_line_spec(line)->Some_0.sender),
        message_entries(m)["recipient"@] == json_string_value(
            parse_line_spec(line)->Some_0.recipient,
        ),
        message_entries(m)["broadcast"@] == json_array_value(
            broadcast_values(parse_line_spec(line)->Some_0.broadcast),
        ),
        message_entries(m)["message"@] == json_string_value(parse_line_spec(line)->Some_0.message),
{
    lemma_emit_keys_distinct();
}

/// The six keys of the emitted object are pairwise distinct.
proof fn lemma_emit_keys_distinct()
    ensures
        "sender"@ != "recipient"@ && "sender"@ != "broadcast"@ && "sender"@ != "message"@
            && "sender"@ != "line_number"@,
        "recipient"@ != "broadcast"@ && "recipient"@ != "message"@ && "recipient"@
            != "line_number"@,
        "broadcast"@ != "message"@ && "broadcast"@ != "line_number"@,
        "message"@ != "line_number"@,
        "timestamp"@ != "sender"@ && "timestamp"@ != "recipient"@ && "timestamp"@ != "broadcast"@
            && "timestamp"@ != "message"@ && "timestamp"@ != "line_number"@,
{
    reveal_strlit("timestamp");
    reveal_strlit("sender");
    reveal_strlit("recipient");
    reveal_strlit("broadcast");
    reveal_strlit("message");
    reveal_strlit("line_number");
    assert("timestamp"@.len() == 9);
    assert("sender"@.len() == 6);
    assert("recipient"@.len() == 9);
    assert("broadcast"@.len() == 9);
    assert("message"@.len() == 7);
    assert("line_number"@.len() == 11);
    assert("timestamp"@[0] == 't');
    assert("recipient"@[0] == 'r');
    assert("broadcast"@[0] == 'b');
}

} // verus!
