//! The rendered log entry: one line of the append-only log file, of the
//! form `[<timestamp>] <data>\n`.

use crate::clock::now_timestamp;
use crate::timestamp::append_lit;
use crate::timestamp::is_digit;
use crate::timestamp::lemma_render_shape;
use crate::timestamp::Timestamp;
use vstd::prelude::*;
use vstd::string::*;

verus! {

/// The rendered entry for a timestamp and the raw message data:
/// `[<timestamp>] <data>\n`.
pub open spec fn spec_entry(ts: Timestamp, data: Seq<char>) -> Seq<char> {
    seq!['['] + ts.spec_render() + seq![']', ' '] + data + seq!['\n']
}

/// Renders the log entry for one request: the timestamp in brackets, a
/// space, the raw data unchanged, and a terminating newline.
pub fn render_entry(ts: &Timestamp, data: &str) -> (r: String)
    requires
        ts.wf(),
    ensures
        r@ == spec_entry(*ts, data@),
{
    let mut s = String::new();
    append_lit(&mut s, "[");
    let rendered = ts.render();
    s.append(rendered.as_str());
    append_lit(&mut s, "] ");
    s.append(data);
    append_lit(&mut s, "\n");
    proof {
        reveal_strlit("[");
        reveal_strlit("] ");
        reveal_strlit("\n");
        assert(s@ =~= spec_entry(*ts, data@));
    }
    s
}

/// Renders the log entry for a message arriving now: the current UTC time,
/// captured once, stamped onto the data. `None` can arise only from a
/// clock that cannot be read as a four-digit-year UTC time.
pub fn render_entry_now(data: &str) -> (r: Option<String>)
    ensures
        r matches Some(e) ==> exists|ts: Timestamp| ts.wf() && e@ == spec_entry(ts, data@),
{
    match now_timestamp() {
        Some(ts) => Some(render_entry(&ts, data)),
        None => None,
    }
}

/// Law: every rendered entry has the shape `[<timestamp>] <data>\n` — an
/// opening bracket, the 23-character timestamp with digits in its date and
/// time slots, a closing bracket and a space, the data unchanged, and a
/// terminating newline.
pub proof fn lemma_entry_shape(ts: Timestamp, data: Seq<char>)
    requires
        ts.wf(),
    ensures
        spec_entry(ts, data).len() == 27 + data.len(),
        spec_entry(ts, data)[0] == '[',
        spec_entry(ts, data).subrange(1, 24) == ts.spec_render(),
        forall|i: int|
            #![auto]
            (1 <= i < 24 && i != 5 && i != 8 && i != 11 && i != 14 && i != 17 && i != 20 && i != 21
                && i != 22 && i != 23) ==> is_digit(spec_entry(ts, data)[i]),
        spec_entry(ts, data)[24] == ']',
        spec_entry(ts, data)[25] == ' ',
        spec_entry(ts, data).subrange(26, 26 + data.len() as int) == data,
        spec_entry(ts, data).last() == '\n',
{
    lemma_render_shape(ts);
    let e = spec_entry(ts, data);
    assert(e.subrange(1, 24) =~= ts.spec_render());
    assert(e.subrange(26, 26 + data.len() as int) =~= data);
    assert forall|i: int|
        (1 <= i < 24 && i != 5 && i != 8 && i != 11 && i != 14 && i != 17 && i != 20 && i != 21
            && i != 22 && i != 23) implies is_digit(#[trigger] e[i]) by {
        assert(e[i] == ts.spec_render()[i - 1]);
    }
}

/// Whether a text is one whole, newline-terminated line: non-empty, ending
/// in a newline, with no newline anywhere before the end.
pub open spec fn line_bounded(line: Seq<char>) -> bool {
    &&& line.len() > 0
    &&& line.last() == '\n'
    &&& forall|i: int| 0 <= i < line.len() - 1 ==> #[trigger] line[i] != '\n'
}

/// Law: a rendered entry whose data contains no newline is one whole,
/// newline-terminated line.
pub proof fn lemma_entry_line_bounded(ts: Timestamp, data: Seq<char>)
    requires
        ts.wf(),
        forall|i: int| 0 <= i < data.len() ==> #[trigger] data[i] != '\n',
    ensures
        line_bounded(spec_entry(ts, data)),
{
    lemma_render_shape(ts);
    let e = spec_entry(ts, data);
    assert forall|i: int| 0 <= i < e.len() - 1 implies #[trigger] e[i] != '\n' by {
        if 1 <= i < 24 {
            assert(e[i] == ts.spec_render()[i - 1]);
        } else if 26 <= i < 26 + data.len() {
            assert(e[i] == data[i - 26]);
        }
    }
}

/// The whole log text after appending each entry once, in order.
pub open spec fn concat_entries(entries: Seq<Seq<char>>) -> Seq<char>
    decreases entries.len(),
{
    if entries.len() == 0 {
        Seq::empty()
    } else {
        entries.first() + concat_entries(entries.drop_first())
    }
}

/// The first line of a text: everything up to and including the first
/// newline, or the whole text where there is none.
pub open spec fn take_line(s: Seq<char>) -> Seq<char>
    decreases s.len(),
{
    if s.len() == 0 {
        s
    } else if s.first() == '\n' {
        seq!['\n']
    } else {
        seq![s.first()] + take_line(s.drop_first())
    }
}

/// The first line of a non-empty text is non-empty and no longer than the
/// text.
pub proof fn lemma_take_line_len(s: Seq<char>)
    ensures
        s.len() > 0 ==> 1 <= take_line(s).len() <= s.len(),
    decreases s.len(),
{
    if s.len() > 0 {
        if s.first() == '\n' {
            assert(take_line(s) =~= seq!['\n']);
        } else {
            lemma_take_line_len(s.drop_first());
            assert(take_line(s) == seq![s.first()] + take_line(s.drop_first()));
        }
    }
}

/// The lines of a text, split after each newline; a trailing fragment
/// without a newline counts as a line of its own.
pub open spec fn split_lines(s: Seq<char>) -> Seq<Seq<char>>
    decreases s.len(),
    via split_lines_decreases
{
    if s.len() == 0 {
        Seq::empty()
    } else {
        seq![take_line(s)] + split_lines(s.skip(take_line(s).len() as int))
    }
}

#[via_fn]
proof fn split_lines_decreases(s: Seq<char>) {
    if s.len() > 0 {
        lemma_take_line_len(s);
    }
}

/// Taking the first line of a whole line followed by anything gives back
/// exactly that line.
pub proof fn lemma_take_line_of_bounded(line: Seq<char>, rest: Seq<char>)
    requires
        line_bounded(line),
    ensures
        take_line(line + rest) == line,
    decreases line.len(),
{
    if line.len() == 1 {
        assert(line.first() == '\n');
        assert((line + rest).first() == '\n');
        assert(take_line(line + rest) =~= line);
    } else {
        assert(line[0] != '\n');
        let tail = line.drop_first();
        assert(tail.last() == line.last());
        assert forall|i: int| 0 <= i < tail.len() - 1 implies #[trigger] tail[i] != '\n' by {
            assert(tail[i] == line[i + 1]);
        }
        assert(line_bounded(tail));
        assert((line + rest).drop_first() =~= tail + rest);
        lemma_take_line_of_bounded(tail, rest);
        assert(take_line(line + rest) =~= line);
    }
}

/// Law: appending any number of whole, newline-terminated lines — one per
/// request, serialized — yields a log whose lines are exactly those
/// entries, in order: as many lines as entries, none interleaved or torn.
pub proof fn lemma_log_lines(entries: Seq<Seq<char>>)
    requires
        forall|i: int| 0 <= i < entries.len() ==> line_bounded(#[trigger] entries[i]),
    ensures
        split_lines(concat_entries(entries)) == entries,
    decreases entries.len(),
{
    if entries.len() == 0 {
        assert(split_lines(concat_entries(entries)) =~= entries);
    } else {
        let e = entries.first();
        let rest = entries.drop_first();
        let restc = concat_entries(rest);
        let s = concat_entries(entries);
        assert(line_bounded(e));
        assert(s == e + restc);
        lemma_take_line_of_bounded(e, restc);
        assert(take_line(s) == e);
        assert(s.skip(e.len() as int) =~= restc);
        assert forall|i: int| 0 <= i < rest.len() implies line_bounded(#[trigger] rest[i]) by {
            assert(rest[i] == entries[i + 1]);
        }
        lemma_log_lines(rest);
        assert(split_lines(s) =~= entries);
    }
}

/// Law: any number of requests with newline-free payloads, serialized by a
/// single writer, append exactly one whole line each: the log built from
/// their rendered entries splits back into those entries, in arrival
/// order, none interleaved or torn.
pub proof fn lemma_serialized_requests_line_up(stamps: Seq<Timestamp>, datas: Seq<Seq<char>>)
    requires
        stamps.len() == datas.len(),
        forall|i: int| 0 <= i < stamps.len() ==> (#[trigger] stamps[i]).wf(),
        forall|i: int, j: int|
            0 <= i < datas.len() && 0 <= j < datas[i].len() ==> #[trigger] datas[i][j] != '\n',
    ensures
        split_lines(
            concat_entries(Seq::new(stamps.len(), |i: int| spec_entry(stamps[i], datas[i]))),
        ) == Seq::new(stamps.len(), |i: int| spec_entry(stamps[i], datas[i])),
{
    let entries = Seq::new(stamps.len(), |i: int| spec_entry(stamps[i], datas[i]));
    assert forall|i: int| 0 <= i < entries.len() implies line_bounded(#[trigger] entries[i]) by {
        assert forall|j: int| 0 <= j < datas[i].len() implies #[trigger] datas[i][j] != '\n' by {}
        lemma_entry_line_bounded(stamps[i], datas[i]);
    }
    lemma_log_lines(entries);
}

} // verus!
