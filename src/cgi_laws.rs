use vstd::prelude::*;

use crate::cgi::{
    after_line, cgi_head, first_colon, header_line, lemma_next_newline_at, line_at, parse_head, CgiError,
    HeaderLineView,
};

verus! {

/// Lines, each followed by a line feed.
pub open spec fn join_lines(lines: Seq<Seq<u8>>) -> Seq<u8>
    decreases lines.len(),
{
    if lines.len() == 0 {
        Seq::empty()
    } else {
        lines[0] + seq![0x0au8] + join_lines(lines.drop_first())
    }
}

/// A line of a header block that reads well: not empty, with no line
/// feed or carriage return, and accepted as a header line.
pub open spec fn good_header_line(line: Seq<u8>) -> bool {
    &&& line.len() > 0
    &&& forall|k: int| 0 <= k < line.len() ==> #[trigger] line[k] != 0x0a && line[k] != 0x0d
    &&& header_line(line) is Ok
}

/// A line with no `:` that is not empty and holds no line feed or carriage return.
pub open spec fn colon_less_line(line: Seq<u8>) -> bool {
    &&& line.len() > 0
    &&& forall|k: int| 0 <= k < line.len() ==> #[trigger] line[k] != 0x0a && line[k] != 0x0d && line[k] != 0x3a
}

proof fn lemma_line_shape(s: Seq<u8>, o: int, h: Seq<u8>, t: Seq<u8>)
    requires
        0 <= o <= s.len(),
        s.subrange(o, s.len() as int) == h + seq![0x0au8] + t,
        h.len() > 0,
        forall|k: int| 0 <= k < h.len() ==> #[trigger] h[k] != 0x0a && h[k] != 0x0d,
    ensures
        o < s.len(),
        line_at(s, o) == h,
        after_line(s, o) == o + h.len() + 1,
        s.subrange(o + h.len() + 1, s.len() as int) == t,
{
    let sub = s.subrange(o, s.len() as int);
    let x = h + seq![0x0au8];
    assert(sub == x + t);
    assert(x.len() == h.len() + 1);
    assert(sub.len() == x.len() + t.len());
    assert(sub.len() == s.len() - o);
    assert forall|k: int| 0 <= k < h.len() implies s[o + k] == #[trigger] h[k] by {
        assert(x[k] == h[k]);
        assert((x + t)[k] == x[k]);
        assert(sub[k] == h[k]);
        assert(sub[k] == s[o + k]);
    }
    assert(x[h.len() as int] == 0x0a);
    assert((x + t)[h.len() as int] == 0x0a);
    assert(sub[h.len() as int] == 0x0a);
    let j = o + h.len();
    assert(s[j] == 0x0a);
    assert forall|k: int| o <= k < j implies s[k] != 0x0a by {
        assert(s[o + (k - o)] == h[k - o]);
    }
    lemma_next_newline_at(s, o, j);
    assert(s[o + (h.len() - 1)] == h[h.len() - 1]);
    assert(s[j - 1] == h[h.len() - 1]);
    assert(line_at(s, o) =~= h);
    assert forall|i: int| 0 <= i < t.len() implies s.subrange(j + 1, s.len() as int)[i] == t[i] by {
        assert((x + t)[x.len() + i] == t[i]);
        assert(sub[x.len() + i] == s[o + x.len() + i]);
    }
    assert(s.subrange(j + 1, s.len() as int) =~= t);
}

proof fn lemma_fails_from(s: Seq<u8>, o: int, good: Seq<Seq<u8>>, bad: Seq<u8>, rest: Seq<u8>, status: u16, fields: Seq<(Seq<u8>, Seq<u8>)>)
    requires
        0 <= o <= s.len(),
        s.subrange(o, s.len() as int) == join_lines(good) + bad + seq![0x0au8] + rest,
        forall|k: int| 0 <= k < good.len() ==> good_header_line(#[trigger] good[k]),
        colon_less_line(bad),
    ensures
        parse_head(s, o, status, fields) == Err::<(u16, Seq<(Seq<u8>, Seq<u8>)>, int), CgiError>(CgiError::MissingColon),
    decreases good.len(),
{
    if good.len() == 0 {
        assert(s.subrange(o, s.len() as int) =~= bad + seq![0x0au8] + rest);
        lemma_line_shape(s, o, bad, rest);
        assert(first_colon(bad) is None);
    } else {
        let h = good[0];
        let tail = good.drop_first();
        let t = join_lines(tail) + bad + seq![0x0au8] + rest;
        assert(s.subrange(o, s.len() as int) =~= h + seq![0x0au8] + t);
        assert(good_header_line(h));
        lemma_line_shape(s, o, h, t);
        assert forall|k: int| 0 <= k < tail.len() implies good_header_line(#[trigger] tail[k]) by {
            assert(tail[k] == good[k + 1]);
        }
        let next = o + h.len() + 1;
        match header_line(h) {
            Ok(HeaderLineView::Status(c)) => {
                lemma_fails_from(s, next, tail, bad, rest, c, fields);
            },
            Ok(HeaderLineView::Field(n, v)) => {
                lemma_fails_from(s, next, tail, bad, rest, status, fields.push((n, v)));
            },
            Err(_) => {},
        }
    }
}

/// A CGI output in which well-formed header lines are followed, before any
/// blank line, by a line with no `:` is refused.
pub proof fn lemma_line_without_colon_fails(good: Seq<Seq<u8>>, bad: Seq<u8>, rest: Seq<u8>)
    requires
        forall|k: int| 0 <= k < good.len() ==> good_header_line(#[trigger] good[k]),
        colon_less_line(bad),
    ensures
        cgi_head(join_lines(good) + bad + seq![0x0au8] + rest) == Err::<(u16, Seq<(Seq<u8>, Seq<u8>)>, int), CgiError>(CgiError::MissingColon),
{
    let s = join_lines(good) + bad + seq![0x0au8] + rest;
    assert(s.subrange(0, s.len() as int) =~= s);
    lemma_fails_from(s, 0, good, bad, rest, 200, seq![]);
}

} // verus!
