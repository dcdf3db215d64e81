//! The message-line grammar and its parser.
//!
//! A recognized line has the shape
//! `[<sender>-to-<recipient>] @ [<broadcast-list>]: <message>` where the
//! `@ [...]` group is optional, `<sender>` and `<recipient>` are non-empty
//! runs of identifier characters, the broadcast list is split on commas
//! with each entry trimmed and empty entries dropped, and `<message>` is
//! the non-empty remainder of the line, verbatim. Leading and trailing
//! whitespace of the whole line is ignored. Anything else is no message.
//!
//! When the bracket group holds several `-to-` runs, the split is the
//! rightmost one that leaves both sides non-empty, so the sender may
//! itself contain `-to-`.

use vstd::prelude::*;

use crate::clock::now_rfc3339;
use crate::text::{
    find_at, ident_char, is_ident_char, is_space, lemma_find_at_bounds, scan_char, scan_ws,
    skip_ws, trim_of, trim_str,
};

verus! {

/// The parts of one recognized line, as mathematical values.
pub struct MessageFields {
    pub sender: Seq<char>,
    pub recipient: Seq<char>,
    pub broadcast: Seq<Seq<char>>,
    pub message: Seq<char>,
}

/// One recognized chat entry. `timestamp` is the capture-time instant,
/// not derived from the line; `line_number` is assigned by the caller
/// (the parser leaves it 0).
pub struct ChatMessage {
    pub timestamp: String,
    pub sender: String,
    pub recipient: String,
    pub broadcast: Vec<String>,
    pub message: String,
    pub line_number: usize,
}

/// `s` holds `-to-` starting at index `i`.
pub open spec fn marker_at(s: Seq<char>, i: int) -> bool {
    s[i] == '-' && s[i + 1] == 't' && s[i + 2] == 'o' && s[i + 3] == '-'
}

/// The largest index in `[lo, i]` where `-to-` starts, or `lo - 1` if none.
pub open spec fn last_marker(s: Seq<char>, lo: int, i: int) -> int
    decreases i - lo + 1
        when 1 <= lo && lo - 1 <= i
{
    if i == lo - 1 {
        i
    } else if marker_at(s, i) {
        i
    } else {
        last_marker(s, lo, i - 1)
    }
}

/// Every character of `s` in `[lo, hi)` is an identifier character.
pub open spec fn ident_range(s: Seq<char>, lo: int, hi: int) -> bool {
    forall|k: int| lo <= k < hi ==> is_ident_char(s[k])
}

/// The broadcast entries of `s` from index `i` on: split on commas, each
/// entry trimmed, empty entries dropped.
pub open spec fn broadcast_items_at(s: Seq<char>, i: int) -> Seq<Seq<char>>
    decreases s.len() - i
        when 0 <= i <= s.len()
    via broadcast_items_at_dec
{
    let j = find_at(s, i, ',');
    let entry = trim_of(s.subrange(i, j));
    let head: Seq<Seq<char>> = if entry.len() == 0 {
        seq![]
    } else {
        seq![entry]
    };
    if j == s.len() {
        head
    } else {
        head + broadcast_items_at(s, j + 1)
    }
}

#[via_fn]
proof fn broadcast_items_at_dec(s: Seq<char>, i: int) {
    lemma_find_at_bounds(s, i, ',');
}

pub open spec fn broadcast_items(s: Seq<char>) -> Seq<Seq<char>> {
    broadcast_items_at(s, 0)
}

/// The message payload of `t` from `pos` on: whitespace, a colon, more
/// whitespace, then a non-empty remainder free of newlines.
pub open spec fn message_after(t: Seq<char>, pos: int) -> Option<Seq<char>> {
    let colon = skip_ws(t, pos);
    if colon == t.len() || t[colon] != ':' {
        None
    } else {
        let m = skip_ws(t, colon + 1);
        if m == t.len() || find_at(t, m, '\n') != t.len() {
            None
        } else {
            Some(t.subrange(m, t.len() as int))
        }
    }
}

/// Parses a line that has already been trimmed of outer whitespace.
pub open spec fn parse_trimmed(t: Seq<char>) -> Option<MessageFields> {
    if t.len() == 0 || t[0] != '[' {
        None
    } else {
        let close = find_at(t, 1, ']');
        if close == t.len() || !ident_range(t, 1, close) || close <= 6 {
            None
        } else {
            let split = last_marker(t, 2, close - 5);
            if split == 1 {
                None
            } else {
                let sender = t.subrange(1, split);
                let recipient = t.subrange(split + 4, close);
                let after = skip_ws(t, close + 1);
                if after < t.len() && t[after] == '@' {
                    let ob = skip_ws(t, after + 1);
                    if ob == t.len() || t[ob] != '[' {
                        None
                    } else {
                        let cb = find_at(t, ob + 1, ']');
                        if cb == t.len() {
                            None
                        } else {
                            match message_after(t, cb + 1) {
                                Some(msg) => Some(
                                    (MessageFields {
                                        sender,
                                        recipient,
                                        broadcast: broadcast_items(t.subrange(ob + 1, cb)),
                                        message: msg,
                                    }),
                                ),
                                None => None,
                            }
                        }
                    }
                } else {
                    match message_after(t, after) {
                        Some(msg) => Some(
                            (MessageFields { sender, recipient, broadcast: seq![], message: msg }),
                        ),
                        None => None,
                    }
                }
            }
        }
    }
}

/// What one raw line parses to: trim it, then apply the grammar.
pub open spec fn parse_line_spec(line: Seq<char>) -> Option<MessageFields> {
    parse_trimmed(trim_of(line))
}

/// The executable message carries exactly the fields of the parse.
pub open spec fn message_models(m: ChatMessage, f: MessageFields) -> bool {
    &&& m.sender@ == f.sender
    &&& m.recipient@ == f.recipient
    &&& m.broadcast.deep_view() == f.broadcast
    &&& m.message@ == f.message
}

fn idents_in(s: &str, lo: usize, hi: usize) -> (r: bool)
    requires
        lo <= hi <= s@.len(),
    ensures
        r == ident_range(s@, lo as int, hi as int),
{
    let mut k = lo;
    while k < hi
        invariant
            lo <= k <= hi <= s@.len(),
            forall|q: int| lo <= q < k ==> is_ident_char(s@[q]),
        decreases hi - k,
    {
        if !ident_char(s.get_char(k)) {
            assert(!ident_range(s@, lo as int, hi as int));
            return false;
        }
        k = k + 1;
    }
    true
}

fn scan_marker_back(s: &str, lo: usize, start: usize) -> (r: usize)
    requires
        1 <= lo,
        lo - 1 <= start,
        start <= usize::MAX - 4,
        start + 4 <= s@.len(),
    ensures
        r as int == last_marker(s@, lo as int, start as int),
        lo - 1 <= r <= start,
{
    let mut i = start;
    loop
        invariant
            lo - 1 <= i <= start,
            start <= usize::MAX - 4,
            start + 4 <= s@.len(),
            1 <= lo,
            last_marker(s@, lo as int, start as int) == last_marker(s@, lo as int, i as int),
        decreases i,
    {
        if i == lo - 1 {
            return i;
        }
        if s.get_char(i) == '-' && s.get_char(i + 1) == 't' && s.get_char(i + 2) == 'o'
            && s.get_char(i + 3) == '-' {
            return i;
        }
        i = i - 1;
    }
}

fn broadcast_list(bc: &str) -> (r: Vec<String>)
    ensures
        r.deep_view() == broadcast_items(bc@),
{
    let n = bc.unicode_len();
    let mut items: Vec<String> = Vec::new();
    let mut pos: usize = 0;
    assert(items.deep_view() =~= Seq::<Seq<char>>::empty());
    loop
        invariant_except_break
            pos <= n,
            n == bc@.len(),
            items.deep_view() + broadcast_items_at(bc@, pos as int) == broadcast_items(bc@),
        ensures
            items.deep_view() == broadcast_items(bc@),
        decreases n - pos,
    {
        let ghost old_items = items.deep_view();
        let j = scan_char(bc, pos, ',');
        let seg = bc.substring_char(pos, j);
        let entry = trim_str(seg);
        if entry.unicode_len() > 0 {
            items.push(entry.to_owned());
            proof {
                assert(items.deep_view() =~= old_items.push(entry@));
            }
        }
        if j == n {
            proof {
                assert(items.deep_view() =~= broadcast_items(bc@));
            }
            break;
        }
        proof {
            assert(items.deep_view() + broadcast_items_at(bc@, j + 1) =~= broadcast_items(bc@));
        }
        pos = j + 1;
    }
    items
}

fn message_tail(t: &str, pos: usize) -> (r: Option<String>)
    requires
        pos <= t@.len(),
    ensures
        match r {
            Some(m) => message_after(t@, pos as int) matches Some(ms) && m@ == ms,
            None => message_after(t@, pos as int) is None,
        },
{
    let n = t.unicode_len();
    let colon = scan_ws(t, pos);
    if colon == n {
        return None;
    }
    if t.get_char(colon) != ':' {
        return None;
    }
    let m = scan_ws(t, colon + 1);
    if m == n {
        return None;
    }
    let nl = scan_char(t, m, '\n');
    if nl < n {
        return None;
    }
    Some(t.substring_char(m, n).to_owned())
}

fn parse_trimmed_line(t: &str) -> (r: Option<ChatMessage>)
    ensures
        match r {
            Some(m) => parse_trimmed(t@) matches Some(f) && message_models(m, f)
                && m.line_number == 0,
            None => parse_trimmed(t@) is None,
        },
{
    let n = t.unicode_len();
    if n == 0 {
        return None;
    }
    if t.get_char(0) != '[' {
        return None;
    }
    let close = scan_char(t, 1, ']');
    if close == n {
        return None;
    }
    if !idents_in(t, 1, close) {
        return None;
    }
    if close <= 6 {
        return None;
    }
    let split = scan_marker_back(t, 2, close - 5);
    if split == 1 {
        return None;
    }
    let sender = t.substring_char(1, split).to_owned();
    let recipient = t.substring_char(split + 4, close).to_owned();
    let after = scan_ws(t, close + 1);
    let at_group = after < n && t.get_char(after) == '@';
    let (bcast, msg_pos): (Vec<String>, usize) = if at_group {
        let ob = scan_ws(t, after + 1);
        if ob == n {
            return None;
        }
        if t.get_char(ob) != '[' {
            return None;
        }
        let cb = scan_char(t, ob + 1, ']');
        if cb == n {
            return None;
        }
        let inner = t.substring_char(ob + 1, cb);
        (broadcast_list(inner), cb + 1)
    } else {
        let empty: Vec<String> = Vec::new();
        assert(empty.deep_view() =~= Seq::<Seq<char>>::empty());
        (empty, after)
    };
    match message_tail(t, msg_pos) {
        Some(message) => Some(
            ChatMessage {
                timestamp: now_rfc3339(),
                sender,
                recipient,
                broadcast: bcast,
                message,
                line_number: 0,
            },
        ),
        None => None,
    }
}

proof fn lemma_last_marker_bounds(s: Seq<char>, lo: int, i: int)
    requires
        1 <= lo,
        lo - 1 <= i,
    ensures
        lo - 1 <= last_marker(s, lo, i) <= i,
    decreases i - lo + 1,
{
    if i > lo - 1 && !marker_at(s, i) {
        lemma_last_marker_bounds(s, lo, i - 1);
    }
}

proof fn lemma_broadcast_items_nonempty(s: Seq<char>, i: int)
    requires
        0 <= i <= s.len(),
    ensures
        forall|j: int|
            0 <= j < broadcast_items_at(s, i).len() ==> (#[trigger] broadcast_items_at(s, i)[j]).len()
                > 0,
    decreases s.len() - i,
{
    lemma_find_at_bounds(s, i, ',');
    let j = find_at(s, i, ',');
    let entry = trim_of(s.subrange(i, j));
    let head: Seq<Seq<char>> = if entry.len() == 0 {
        seq![]
    } else {
        seq![entry]
    };
    if j == s.len() {
        assert(broadcast_items_at(s, i) == head);
    } else {
        lemma_broadcast_items_nonempty(s, j + 1);
        assert(broadcast_items_at(s, i) == head + broadcast_items_at(s, j + 1));
        assert forall|q: int|
            0 <= q < broadcast_items_at(s, i).len() implies (#[trigger] broadcast_items_at(
            s,
            i,
        )[q]).len() > 0 by {
            if q < head.len() {
                assert(broadcast_items_at(s, i)[q] == entry);
            } else {
                assert(broadcast_items_at(s, i)[q] == broadcast_items_at(s, j + 1)[q - head.len()]);
            }
        }
    }
}

proof fn lemma_skip_ws_bounds(s: Seq<char>, i: int)
    requires
        0 <= i <= s.len(),
    ensures
        i <= skip_ws(s, i) <= s.len(),
    decreases s.len() - i,
{
    if i < s.len() && is_space(s[i]) {
        lemma_skip_ws_bounds(s, i + 1);
    }
}

/// Every message the grammar recognizes is well formed: the sender and
/// the recipient are non-empty runs of identifier characters, the message
/// payload is non-empty, and the broadcast list holds no empty entry.
pub proof fn lemma_parsed_fields_shape(line: Seq<char>)
    requires
        parse_line_spec(line) is Some,
    ensures
        ({
            let f = parse_line_spec(line)->0;
            &&& f.sender.len() > 0
            &&& f.recipient.len() > 0
            &&& f.message.len() > 0
            &&& forall|k: int| 0 <= k < f.sender.len() ==> is_ident_char(#[trigger] f.sender[k])
            &&& forall|k: int|
                0 <= k < f.recipient.len() ==> is_ident_char(#[trigger] f.recipient[k])
            &&& forall|j: int| 0 <= j < f.broadcast.len() ==> (#[trigger] f.broadcast[j]).len() > 0
        }),
{
    let t = trim_of(line);
    let close = find_at(t, 1, ']');
    lemma_find_at_bounds(t, 1, ']');
    let split = last_marker(t, 2, close - 5);
    lemma_last_marker_bounds(t, 2, close - 5);
    let after = skip_ws(t, close + 1);
    lemma_skip_ws_bounds(t, close + 1);
    if after < t.len() && t[after] == '@' {
        let ob = skip_ws(t, after + 1);
        lemma_skip_ws_bounds(t, after + 1);
        let cb = find_at(t, ob + 1, ']');
        lemma_find_at_bounds(t, ob + 1, ']');
        lemma_broadcast_items_nonempty(t.subrange(ob + 1, cb), 0);
        lemma_message_after_shape(t, cb + 1);
    } else {
        lemma_message_after_shape(t, after);
    }
}

proof fn lemma_message_after_shape(t: Seq<char>, pos: int)
    requires
        0 <= pos <= t.len(),
        message_after(t, pos) is Some,
    ensures
        (message_after(t, pos)->0).len() > 0,
{
    let colon = skip_ws(t, pos);
    lemma_skip_ws_bounds(t, pos);
    lemma_skip_ws_bounds(t, colon + 1);
}

/// Parses one raw line (without its trailing newline) against the message
/// grammar. Returns the structured message with a capture-time timestamp
/// and `line_number` 0, or `None` exactly when the line does not match.
pub fn parse_chat_line(line: &str) -> (r: Option<ChatMessage>)
    ensures
        match r {
            Some(m) => parse_line_spec(line@) matches Some(f) && message_models(m, f)
                && m.line_number == 0,
            None => parse_line_spec(line@) is None,
        },
{
    let t = trim_str(line);
    parse_trimmed_line(t)
}

} // verus!
