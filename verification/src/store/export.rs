//! Line framing of the JSONL export: one line holds one serialized record.

use vstd::prelude::*;
use crate::text::{chars_of, push_char};

verus! {

/// A serialized record fits on one export line when it holds no raw line
/// break (serde_json escapes both inside strings and never emits them).
pub open spec fn is_single_line(line: Seq<char>) -> bool {
    !line.contains('\n') && !line.contains('\r')
}

/// One line of the export: the serialized record and a line feed.
pub open spec fn framed(line: Seq<char>) -> Seq<char> {
    line.push('\n')
}

/// The export text of a list of lines, written in order.
pub open spec fn export_text(lines: Seq<Seq<char>>) -> Seq<char>
    decreases lines.len(),
{
    if lines.len() == 0 {
        Seq::empty()
    } else {
        framed(lines[0]) + export_text(lines.drop_first())
    }
}

/// Index of the first line feed of `s`, or its length when it has none.
pub open spec fn first_line_feed(s: Seq<char>) -> nat
    decreases s.len(),
{
    if s.len() == 0 {
        0
    } else if s[0] == '\n' {
        0
    } else {
        1 + first_line_feed(s.drop_first())
    }
}

/// A line without one trailing carriage return.
pub open spec fn strip_cr(line: Seq<char>) -> Seq<char> {
    if line.len() > 0 && line.last() == '\r' {
        line.drop_last()
    } else {
        line
    }
}

/// The lines a reader sees in `text`, splitting as `str::lines` does: at
/// each line feed, dropping one carriage return before it, with no empty
/// line after a final line feed.
pub open spec fn lines_of(text: Seq<char>) -> Seq<Seq<char>>
    decreases text.len(),
{
    if text.len() == 0 {
        Seq::empty()
    } else {
        let k = first_line_feed(text);
        if k >= text.len() {
            seq![text]
        } else {
            seq![strip_cr(text.take(k as int))] + lines_of(text.skip(k + 1 as int))
        }
    }
}

/// The export line of a serialized record: the record text followed by a
/// line feed; `None` when the text holds a raw line break and would not
/// read back as one line.
pub fn frame_line(line: &str) -> (res: Option<String>)
    ensures
        res is Some <==> is_single_line(line@),
        res matches Some(t) ==> t@ == framed(line@),
{
    let cs = chars_of(line);
    let mut out = String::new();
    let mut i: usize = 0;
    while i < cs.len()
        invariant
            cs@ == line@,
            i <= cs.len(),
            out@ == line@.take(i as int),
            forall|j: int| 0 <= j < i ==> cs@[j] != '\n' && cs@[j] != '\r',
        decreases cs.len() - i,
    {
        if cs[i] == '\n' || cs[i] == '\r' {
            assert(line@.contains(cs@[i as int]));
            return None;
        }
        proof {
            assert(line@.take(i + 1) == line@.take(i as int).push(line@[i as int]));
        }
        push_char(&mut out, cs[i]);
        i = i + 1;
    }
    assert(line@.take(cs.len() as int) == line@);
    push_char(&mut out, '\n');
    assert(!line@.contains('\n') && !line@.contains('\r')) by {
        assert forall|j: int| 0 <= j < line@.len() implies line@[j] != '\n' && line@[j] != '\r' by {
            assert(cs@[j] == line@[j]);
        }
    }
    Some(out)
}

/// The first line feed of a framed line followed by anything is the frame's own.
proof fn lemma_first_line_feed_of_frame(line: Seq<char>, rest: Seq<char>)
    requires
        !line.contains('\n'),
    ensures
        first_line_feed(framed(line) + rest) == line.len(),
    decreases line.len(),
{
    let s = framed(line) + rest;
    if line.len() == 0 {
        assert(s[0] == '\n');
    } else {
        assert(s[0] == line[0]);
        assert(!line.drop_first().contains('\n')) by {
            assert forall|j: int| 0 <= j < line.drop_first().len() implies line.drop_first()[j]
                != '\n' by {
                assert(line.drop_first()[j] == line[j + 1]);
            }
        }
        lemma_first_line_feed_of_frame(line.drop_first(), rest);
        assert(s.drop_first() =~= framed(line.drop_first()) + rest);
    }
}

/// Reading an export back line by line gives exactly the serialized records
/// that were written, in order: one line is one record.
pub proof fn lemma_export_reads_back(lines: Seq<Seq<char>>)
    requires
        forall|i: int| 0 <= i < lines.len() ==> is_single_line(#[trigger] lines[i]),
    ensures
        lines_of(export_text(lines)) == lines,
    decreases lines.len(),
{
    if lines.len() > 0 {
        let l = lines[0];
        let rest = export_text(lines.drop_first());
        let text = export_text(lines);
        assert(text == framed(l) + rest);
        lemma_first_line_feed_of_frame(l, rest);
        assert(text.take(l.len() as int) =~= l);
        assert(text.skip(l.len() + 1 as int) =~= rest);
        if l.len() > 0 {
            assert(l.last() != '\r') by {
                assert(l[l.len() - 1] == l.last());
            }
        }
        assert(strip_cr(l) == l);
        assert forall|i: int| 0 <= i < lines.drop_first().len() implies is_single_line(
            #[trigger] lines.drop_first()[i],
        ) by {
            assert(lines.drop_first()[i] == lines[i + 1]);
        }
        lemma_export_reads_back(lines.drop_first());
        assert(lines_of(text) =~= seq![l] + lines.drop_first());
        assert(seq![l] + lines.drop_first() =~= lines);
    } else {
        assert(export_text(lines) =~= Seq::<char>::empty());
        assert(lines =~= Seq::<Seq<char>>::empty());
    }
}

} // verus!
