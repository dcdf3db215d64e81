//! The read cursor into the watched file, and the processing of the
//! newly appended content of one wake-up.
//!
//! The cursor holds the last consumed byte position and the cumulative
//! count of non-empty lines. On each wake-up the caller compares the
//! file's current length with the cursor: a shorter file means the file
//! was truncated, and the cursor resets to zero without reading (the
//! content below the new length is picked up on a later wake-up); a
//! longer file means exactly the bytes between the old offset and the
//! current length are read.

use vstd::prelude::*;

use crate::parser::{
    parse_chat_line, parse_line_spec, message_models, ChatMessage, MessageFields,
};
use crate::text::{find_at, lemma_find_at_bounds, scan_char, trim_of, trim_str};

verus! {

/// The cursor into the watched file.
#[derive(Debug, Clone, Copy, PartialEq, Eq, Structural)]
pub struct TailState {
    /// The last successfully consumed byte position.
    pub byte_offset: u64,
    /// The cumulative count of non-empty lines observed.
    pub line_count: usize,
}

/// What one wake-up should do, given the file's current length.
#[derive(Debug, Clone, Copy, PartialEq, Eq, Structural)]
pub enum PassPlan {
    /// The file shrank: the cursor was reset and nothing is read this pass.
    Truncated,
    /// Read exactly the bytes in `[from, to)`.
    Read { from: u64, to: u64 },
    /// Nothing new to read.
    UpToDate,
}

/// The plan for a cursor at `offset` against a file of length `current_len`.
pub open spec fn pass_plan_of(offset: u64, current_len: u64) -> PassPlan {
    if current_len < offset {
        PassPlan::Truncated
    } else if current_len > offset {
        PassPlan::Read { from: offset, to: current_len }
    } else {
        PassPlan::UpToDate
    }
}

/// Compares the file's current length with the cursor and decides the
/// pass: on truncation the cursor resets to zero and nothing is read;
/// on growth the byte range `[byte_offset, current_len)` is to be read;
/// otherwise nothing happens. The cursor is only mutated on truncation.
pub fn plan_pass(ts: &mut TailState, current_len: u64) -> (r: PassPlan)
    ensures
        r == pass_plan_of(old(ts).byte_offset, current_len),
        r is Truncated ==> final(ts).byte_offset == 0 && final(ts).line_count == 0,
        !(r is Truncated) ==> *final(ts) == *old(ts),
{
    if current_len < ts.byte_offset {
        ts.byte_offset = 0;
        ts.line_count = 0;
        PassPlan::Truncated
    } else if current_len > ts.byte_offset {
        PassPlan::Read { from: ts.byte_offset, to: current_len }
    } else {
        PassPlan::UpToDate
    }
}

/// The cursor for a watcher that starts against a file of length
/// `file_len` already holding `existing_lines` non-empty lines: that
/// content is never re-read, so nothing present at startup is emitted.
pub fn initial_tail_state(file_len: u64, existing_lines: usize) -> (r: TailState)
    ensures
        r.byte_offset == file_len,
        r.line_count == existing_lines,
{
    TailState { byte_offset: file_len, line_count: existing_lines }
}

/// A piece split on `'\n'`, with one trailing `'\r'` removed.
pub open spec fn raw_piece(p: Seq<char>) -> Seq<char> {
    if p.len() > 0 && p[p.len() - 1] == '\r' {
        p.drop_last()
    } else {
        p
    }
}

/// The non-empty lines of `s` from index `i` on: split on newlines, one
/// trailing carriage return dropped from each piece, and pieces that are
/// blank after trimming discarded. The kept lines are otherwise verbatim.
pub open spec fn lines_at(s: Seq<char>, i: int) -> Seq<Seq<char>>
    decreases s.len() - i
        when 0 <= i <= s.len()
    via lines_at_dec
{
    let j = find_at(s, i, '\n');
    let piece = raw_piece(s.subrange(i, j));
    let head: Seq<Seq<char>> = if trim_of(piece).len() == 0 {
        seq![]
    } else {
        seq![piece]
    };
    if j == s.len() {
        head
    } else {
        head + lines_at(s, j + 1)
    }
}

#[via_fn]
proof fn lines_at_dec(s: Seq<char>, i: int) {
    lemma_find_at_bounds(s, i, '\n');
}

pub open spec fn nonempty_lines(s: Seq<char>) -> Seq<Seq<char>> {
    lines_at(s, 0)
}

/// Splits one read chunk into its non-empty lines, in file order.
pub fn extract_lines(chunk: &str) -> (r: Vec<String>)
    ensures
        r.deep_view() == nonempty_lines(chunk@),
{
    let n = chunk.unicode_len();
    let mut items: Vec<String> = Vec::new();
    let mut pos: usize = 0;
    assert(items.deep_view() =~= Seq::<Seq<char>>::empty());
    loop
        invariant_except_break
            pos <= n,
            n == chunk@.len(),
            items.deep_view() + lines_at(chunk@, pos as int) == nonempty_lines(chunk@),
        ensures
            items.deep_view() == nonempty_lines(chunk@),
        decreases n - pos,
    {
        let ghost old_items = items.deep_view();
        let j = scan_char(chunk, pos, '\n');
        let line_end = if j > pos && chunk.get_char(j - 1) == '\r' {
            j - 1
        } else {
            j
        };
        let piece = chunk.substring_char(pos, line_end);
        assert(piece@ =~= raw_piece(chunk@.subrange(pos as int, j as int)));
        let keep = trim_str(piece).unicode_len() > 0;
        if keep {
            items.push(piece.to_owned());
            proof {
                assert(items.deep_view() =~= old_items.push(piece@));
            }
        }
        if j == n {
            proof {
                assert(items.deep_view() =~= nonempty_lines(chunk@));
            }
            break;
        }
        proof {
            assert(items.deep_view() + lines_at(chunk@, j + 1) =~= nonempty_lines(chunk@));
        }
        pos = j + 1;
    }
    items
}

/// The number of non-empty lines already in a file's content; used to
/// seed the cursor at startup.
pub fn count_nonempty_lines(content: &str) -> (r: usize)
    ensures
        r == nonempty_lines(content@).len(),
{
    extract_lines(content).len()
}

/// One emitted message, as mathematical values: the parsed fields and
/// the 1-based cumulative line number stamped on them.
pub struct EmitRecord {
    pub fields: MessageFields,
    pub line_number: int,
}

/// The messages emitted for `lines` when `base` non-empty lines came
/// before them: the k-th line gets number `base + k + 1`, and only
/// lines matching the grammar produce a record, in order.
pub open spec fn emitted_from(lines: Seq<Seq<char>>, base: int) -> Seq<EmitRecord>
    decreases lines.len(),
{
    if lines.len() == 0 {
        seq![]
    } else {
        let head: Seq<EmitRecord> = match parse_line_spec(lines[0]) {
            Some(f) => seq![(EmitRecord { fields: f, line_number: base + 1 })],
            None => seq![],
        };
        head + emitted_from(lines.drop_first(), base + 1)
    }
}

/// The executable batch result carries exactly the emitted records.
pub open spec fn models_emitted(r: Seq<ChatMessage>, recs: Seq<EmitRecord>) -> bool {
    &&& r.len() == recs.len()
    &&& forall|i: int|
        0 <= i < recs.len() ==> message_models(#[trigger] r[i], recs[i].fields) && r[i].line_number
            == recs[i].line_number
}

proof fn lemma_emitted_push(lines: Seq<Seq<char>>, x: Seq<char>, base: int)
    ensures
        emitted_from(lines.push(x), base) == emitted_from(lines, base) + (match parse_line_spec(
            x,
        ) {
            Some(f) => seq![(EmitRecord { fields: f, line_number: base + lines.len() + 1 })],
            None => Seq::<EmitRecord>::empty(),
        }),
    decreases lines.len(),
{
    let l2 = lines.push(x);
    if lines.len() == 0 {
        assert(l2[0] == x);
        assert(l2.drop_first() =~= Seq::<Seq<char>>::empty());
        assert(emitted_from(l2.drop_first(), base + 1) =~= Seq::<EmitRecord>::empty());
        assert(emitted_from(lines, base) =~= Seq::<EmitRecord>::empty());
        assert(emitted_from(lines.push(x), base) =~= emitted_from(lines, base) + (match
        parse_line_spec(x) {
            Some(f) => seq![(EmitRecord { fields: f, line_number: base + lines.len() + 1 })],
            None => Seq::<EmitRecord>::empty(),
        }));
    } else {
        assert(l2.drop_first() =~= lines.drop_first().push(x));
        lemma_emitted_push(lines.drop_first(), x, base + 1);
        assert(emitted_from(lines.push(x), base) =~= emitted_from(lines, base) + (match
        parse_line_spec(x) {
            Some(f) => seq![(EmitRecord { fields: f, line_number: base + lines.len() + 1 })],
            None => Seq::<EmitRecord>::empty(),
        }));
    }
}

/// Consumes one batch of newly read non-empty lines: each line advances
/// the cumulative count by one, each line matching the grammar becomes a
/// message stamped with that count, and the cursor advances to
/// `new_offset`. Lines are emitted in file order, each at most once.
pub fn process_lines(ts: &mut TailState, lines: &Vec<String>, new_offset: u64) -> (r: Vec<
    ChatMessage,
>)
    requires
        old(ts).line_count + lines@.len() <= usize::MAX,
    ensures
        final(ts).byte_offset == new_offset,
        final(ts).line_count == old(ts).line_count + lines@.len(),
        models_emitted(r@, emitted_from(lines.deep_view(), old(ts).line_count as int)),
{
    let ghost base = ts.line_count as int;
    let ghost all = lines.deep_view();
    let mut out: Vec<ChatMessage> = Vec::new();
    let mut i: usize = 0;
    let n = lines.len();
    assert(all.take(0) =~= Seq::<Seq<char>>::empty());
    while i < n
        invariant
            0 <= i <= n,
            n == lines@.len(),
            all == lines.deep_view(),
            base + n <= usize::MAX,
            ts.line_count == base + i,
            ts.byte_offset == old(ts).byte_offset,
            models_emitted(out@, emitted_from(all.take(i as int), base)),
        decreases n - i,
    {
        let ghost prefix = all.take(i as int);
        ts.line_count = ts.line_count + 1;
        let parsed = parse_chat_line(lines[i].as_str());
        proof {
            assert(all[i as int] == lines@[i as int]@);
            assert(all.take(i + 1) =~= prefix.push(all[i as int]));
            lemma_emitted_push(prefix, all[i as int], base);
        }
        match parsed {
            Some(m) => {
                let mut m = m;
                m.line_number = ts.line_count;
                out.push(m);
            },
            None => {},
        }
        i = i + 1;
    }
    assert(all.take(n as int) =~= all);
    ts.byte_offset = new_offset;
    out
}

/// Between two wake-ups, a batch of N new non-empty lines produces one
/// emitted record per line matching the grammar, in order, with strictly
/// increasing line numbers; every number lies in `(base, base + N]`.
pub proof fn lemma_batch_numbering(lines: Seq<Seq<char>>, base: int)
    ensures
        emitted_from(lines, base).len() <= lines.len(),
        forall|i: int|
            0 <= i < emitted_from(lines, base).len() ==> base < (
            #[trigger] emitted_from(lines, base)[i]).line_number <= base + lines.len(),
        forall|i: int, j: int|
            0 <= i < j < emitted_from(lines, base).len() ==> emitted_from(lines, base)[i].line_number
                < emitted_from(lines, base)[j].line_number,
    decreases lines.len(),
{
    if lines.len() > 0 {
        lemma_batch_numbering(lines.drop_first(), base + 1);
    }
}

/// When every line of the batch matches the grammar, exactly one record
/// is emitted per line, however many change notifications announced it.
pub proof fn lemma_all_matching_batch(lines: Seq<Seq<char>>, base: int)
    requires
        forall|i: int| 0 <= i < lines.len() ==> parse_line_spec(#[trigger] lines[i]) is Some,
    ensures
        emitted_from(lines, base).len() == lines.len(),
        forall|i: int|
            0 <= i < lines.len() ==> (#[trigger] emitted_from(lines, base)[i]).line_number == base
                + i + 1,
    decreases lines.len(),
{
    if lines.len() > 0 {
        assert(parse_line_spec(lines[0]) is Some);
        assert(forall|i: int|
            0 <= i < lines.drop_first().len() ==> parse_line_spec(
                #[trigger] lines.drop_first()[i],
            ) is Some);
        lemma_all_matching_batch(lines.drop_first(), base + 1);
    }
}

/// After a truncation reset the cursor is zero, so the first matching
/// line of the next content read is numbered 1.
pub proof fn lemma_numbering_restarts(lines: Seq<Seq<char>>)
    requires
        lines.len() > 0,
        parse_line_spec(lines[0]) is Some,
    ensures
        emitted_from(lines, 0).len() > 0,
        emitted_from(lines, 0)[0].line_number == 1,
{
}

/// A watcher started against a file of length `file_len` plans no read
/// until the file grows: the content present at startup is never emitted.
pub proof fn lemma_startup_is_quiet(file_len: u64, existing_lines: usize)
    ensures
        pass_plan_of(
            (TailState { byte_offset: file_len, line_count: existing_lines }).byte_offset,
            file_len,
        ) is UpToDate,
{
}

} // verus!
