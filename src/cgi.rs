use vstd::prelude::*;

verus! {

/// Why a CGI program's header block was refused.
#[derive(PartialEq, Eq, Structural, Debug, Clone, Copy)]
pub enum CgiError {
    /// A header line holds no `:`.
    MissingColon,
    /// Nothing follows the `:` of a header line.
    MissingValue,
    /// A `Status` value does not start with a three-character number.
    InvalidStatus,
}

/// One line of a CGI header block.
pub enum HeaderLine {
    Status(u16),
    Field(Vec<u8>, Vec<u8>),
}

pub enum HeaderLineView {
    Status(u16),
    Field(Seq<u8>, Seq<u8>),
}

impl HeaderLine {
    pub open spec fn view(&self) -> HeaderLineView {
        match self {
            HeaderLine::Status(c) => HeaderLineView::Status(*c),
            HeaderLine::Field(n, v) => HeaderLineView::Field(n@, v@),
        }
    }
}

/// What the header block of a CGI program's output says.
pub struct CgiHead {
    pub status_code: u16,
    pub headers: Vec<(Vec<u8>, Vec<u8>)>,
    /// Where the body starts in the output.
    pub body_start: usize,
}

pub open spec fn field_view(p: (Vec<u8>, Vec<u8>)) -> (Seq<u8>, Seq<u8>) {
    (p.0@, p.1@)
}

pub open spec fn fields_view(v: Seq<(Vec<u8>, Vec<u8>)>) -> Seq<(Seq<u8>, Seq<u8>)> {
    v.map_values(|p: (Vec<u8>, Vec<u8>)| field_view(p))
}

pub open spec fn is_digit(b: u8) -> bool {
    0x30 <= b <= 0x39
}

pub open spec fn digit_value(b: u8) -> int {
    b - 0x30
}

/// The number that the first three characters of `v` spell in decimal, with
/// an optional leading `+`.
pub open spec fn status_of(v: Seq<u8>) -> Option<u16> {
    if v.len() < 3 {
        None
    } else if is_digit(v[0]) && is_digit(v[1]) && is_digit(v[2]) {
        Some((100 * digit_value(v[0]) + 10 * digit_value(v[1]) + digit_value(v[2])) as u16)
    } else if v[0] == 0x2b && is_digit(v[1]) && is_digit(v[2]) {
        Some((10 * digit_value(v[1]) + digit_value(v[2])) as u16)
    } else {
        None
    }
}

/// `Status`, as bytes.
pub open spec fn status_name() -> Seq<u8> {
    seq![0x53u8, 0x74u8, 0x61u8, 0x74u8, 0x75u8, 0x73u8]
}

/// The index of the first `:` in `line`, if any.
pub open spec fn first_colon(line: Seq<u8>) -> Option<int> {
    if exists|i: int| 0 <= i < line.len() && line[i] == 0x3a {
        Some(choose|i: int| 0 <= i < line.len() && line[i] == 0x3a
            && forall|j: int| 0 <= j < i ==> line[j] != 0x3a)
    } else {
        None
    }
}

/// A header line is split at its first `:`; the character after the colon
/// is dropped, and a `Status` line gives the status code.
pub open spec fn header_line(line: Seq<u8>) -> Result<HeaderLineView, CgiError> {
    match first_colon(line) {
        None => Err(CgiError::MissingColon),
        Some(c) => {
            let name = line.subrange(0, c);
            let rest = line.subrange(c + 1, line.len() as int);
            if rest.len() == 0 {
                Err(CgiError::MissingValue)
            } else {
                let value = rest.subrange(1, rest.len() as int);
                if name == status_name() {
                    match status_of(value) {
                        Some(code) => Ok(HeaderLineView::Status(code)),
                        None => Err(CgiError::InvalidStatus),
                    }
                } else {
                    Ok(HeaderLineView::Field(name, value))
                }
            }
        }
    }
}

/// The index of the first line feed at or after `i`, or the length of `s`.
pub open spec fn next_newline(s: Seq<u8>, i: int) -> int
    decreases s.len() - i,
{
    if i >= s.len() {
        s.len() as int
    } else if s[i] == 0x0a {
        i
    } else {
        next_newline(s, i + 1)
    }
}

/// The line that starts at `i`, without its line feed, or its carriage
/// return and line feed.
pub open spec fn line_at(s: Seq<u8>, i: int) -> Seq<u8> {
    let j = next_newline(s, i);
    if j < s.len() && j > i && s[j - 1] == 0x0d {
        s.subrange(i, j - 1)
    } else {
        s.subrange(i, j)
    }
}

/// Where the line after the one that starts at `i` starts.
pub open spec fn after_line(s: Seq<u8>, i: int) -> int {
    let j = next_newline(s, i);
    if j < s.len() {
        j + 1
    } else {
        s.len() as int
    }
}

pub proof fn lemma_next_newline_bounds(s: Seq<u8>, i: int)
    requires
        0 <= i,
    ensures
        i <= s.len() ==> i <= next_newline(s, i) <= s.len(),
        next_newline(s, i) < s.len() ==> s[next_newline(s, i)] == 0x0a,
    decreases s.len() - i,
{
    if i < s.len() && s[i] != 0x0a {
        lemma_next_newline_bounds(s, i + 1);
    }
}

pub proof fn lemma_next_newline_at(s: Seq<u8>, i: int, j: int)
    requires
        0 <= i <= j <= s.len(),
        forall|k: int| i <= k < j ==> s[k] != 0x0a,
        j == s.len() || s[j] == 0x0a,
    ensures
        next_newline(s, i) == j,
    decreases j - i,
{
    if i < j {
        lemma_next_newline_at(s, i + 1, j);
    }
}

#[via_fn]
proof fn parse_head_decreases(s: Seq<u8>, i: int, status: u16, fields: Seq<(Seq<u8>, Seq<u8>)>) {
    if 0 <= i < s.len() {
        lemma_next_newline_bounds(s, i);
    }
}

/// The status code, the header fields and the start of the body, for a
/// header block read from `i` on, with `status` and `fields` read so far. The
/// block ends at a blank line or at the end of the output.
pub open spec fn parse_head(s: Seq<u8>, i: int, status: u16, fields: Seq<(Seq<u8>, Seq<u8>)>)
    -> Result<(u16, Seq<(Seq<u8>, Seq<u8>)>, int), CgiError>
    decreases s.len() - i via parse_head_decreases
{
    if i < 0 || i >= s.len() {
        Ok((status, fields, s.len() as int))
    } else {
        let line = line_at(s, i);
        let next = after_line(s, i);
        if line.len() == 0 {
            Ok((status, fields, next))
        } else {
            match header_line(line) {
                Err(e) => Err(e),
                Ok(HeaderLineView::Status(c)) => parse_head(s, next, c, fields),
                Ok(HeaderLineView::Field(n, v)) => parse_head(s, next, status, fields.push((n, v))),
            }
        }
    }
}

/// The header block of a whole CGI output, with the default status 200.
pub open spec fn cgi_head(s: Seq<u8>) -> Result<(u16, Seq<(Seq<u8>, Seq<u8>)>, int), CgiError> {
    parse_head(s, 0, 200, seq![])
}

fn copy_range(s: &[u8], from: usize, to: usize) -> (r: Vec<u8>)
    requires
        from <= to <= s@.len(),
    ensures
        r@ == s@.subrange(from as int, to as int),
{
    let mut r: Vec<u8> = Vec::new();
    let mut i: usize = from;
    while i < to
        invariant
            from <= i <= to <= s@.len(),
            r@ == s@.subrange(from as int, i as int),
        decreases to - i,
    {
        r.push(s[i]);
        i = i + 1;
        assert(r@ =~= s@.subrange(from as int, i as int));
    }
    r
}

fn is_status_name(name: &[u8]) -> (r: bool)
    ensures
        r == (name@ == status_name()),
{
    if name.len() != 6 {
        return false;
    }
    let r = name[0] == 0x53 && name[1] == 0x74 && name[2] == 0x61 && name[3] == 0x74
        && name[4] == 0x75 && name[5] == 0x73;
    if r {
        assert(name@ =~= status_name());
    }
    r
}

fn parse_status(v: &[u8]) -> (r: Option<u16>)
    ensures
        r == status_of(v@),
{
    if v.len() < 3 {
        return None;
    }
    let d0 = v[0];
    let d1 = v[1];
    let d2 = v[2];
    if 0x30 <= d1 && d1 <= 0x39 && 0x30 <= d2 && d2 <= 0x39 {
        let tail: u16 = 10 * (d1 - 0x30) as u16 + (d2 - 0x30) as u16;
        if 0x30 <= d0 && d0 <= 0x39 {
            Some(100 * (d0 - 0x30) as u16 + tail)
        } else if d0 == 0x2b {
            Some(tail)
        } else {
            None
        }
    } else {
        None
    }
}

/// Parses one line of a CGI header block (without its line ending).
pub fn parse_header_line(line: &[u8]) -> (r: Result<HeaderLine, CgiError>)
    ensures
        match r {
            Ok(h) => header_line(line@) == Ok::<HeaderLineView, CgiError>(h@),
            Err(e) => header_line(line@) == Err::<HeaderLineView, CgiError>(e),
        },
{
    let mut c: usize = 0;
    while c < line.len() && line[c] != 0x3a
        invariant
            c <= line@.len(),
            forall|j: int| 0 <= j < c ==> line@[j] != 0x3a,
        decreases line.len() - c,
    {
        c = c + 1;
    }
    if c == line.len() {
        return Err(CgiError::MissingColon);
    }
    proof {
        let k = choose|i: int| 0 <= i < line@.len() && line@[i] == 0x3a
            && forall|j: int| 0 <= j < i ==> line@[j] != 0x3a;
        if k < c {
        } else if k > c {
        }
        assert(first_colon(line@) == Some(c as int));
    }
    if c + 1 == line.len() {
        return Err(CgiError::MissingValue);
    }
    let name = copy_range(line, 0, c);
    let value = copy_range(line, c + 2, line.len());
    assert(line@.subrange(c + 1, line@.len() as int).subrange(1, line@.len() - c - 1)
        =~= line@.subrange(c + 2, line@.len() as int));
    if is_status_name(name.as_slice()) {
        match parse_status(value.as_slice()) {
            Some(code) => Ok(HeaderLine::Status(code)),
            None => Err(CgiError::InvalidStatus),
        }
    } else {
        Ok(HeaderLine::Field(name, value))
    }
}

/// The header block read so far, while the output is still streaming.
pub struct HeadLines {
    pub status_code: u16,
    pub headers: Vec<(Vec<u8>, Vec<u8>)>,
}

impl HeadLines {
    /// Nothing read yet: status 200 and no header fields.
    pub fn new() -> (r: Self)
        ensures
            r.status_code == 200,
            r.headers@.len() == 0,
    {
        HeadLines { status_code: 200, headers: Vec::new() }
    }

    /// Takes one line of the header block (without its line ending). An
    /// empty line ends the block: the answer is `Ok(false)` and nothing
    /// changes. Otherwise a `Status` line sets the status code, any other
    /// line is appended as a field, and the answer is `Ok(true)`; a malformed
    /// line gives its error.
    pub fn head_step(&mut self, line: &[u8]) -> (r: Result<bool, CgiError>)
        ensures
            line@.len() == 0 ==> r == Ok::<bool, CgiError>(false) && *final(self) == *old(self),
            line@.len() > 0 ==> match header_line(line@) {
                Err(e) => r == Err::<bool, CgiError>(e),
                Ok(HeaderLineView::Status(c)) => r == Ok::<bool, CgiError>(true)
                    && final(self).status_code == c && final(self).headers@ == old(self).headers@,
                Ok(HeaderLineView::Field(n, v)) => r == Ok::<bool, CgiError>(true)
                    && final(self).status_code == old(self).status_code
                    && fields_view(final(self).headers@) == fields_view(old(self).headers@).push((n, v)),
            },
    {
        if line.len() == 0 {
            return Ok(false);
        }
        match parse_header_line(line) {
            Err(e) => Err(e),
            Ok(HeaderLine::Status(c)) => {
                self.status_code = c;
                Ok(true)
            },
            Ok(HeaderLine::Field(n, v)) => {
                let ghost before = self.headers@;
                let ghost nv = n@;
                let ghost vv = v@;
                self.headers.push((n, v));
                proof {
                    assert(fields_view(self.headers@) =~= fields_view(before).push((nv, vv)));
                }
                Ok(true)
            },
        }
    }
}

/// Reads the header block of a CGI program's whole output: the status code
/// (200 unless a `Status` line sets it), the other header fields in order,
/// and where the body starts.
pub fn parse_cgi_output(out: &[u8]) -> (r: Result<CgiHead, CgiError>)
    ensures
        match r {
            Ok(h) => cgi_head(out@) == Ok::<(u16, Seq<(Seq<u8>, Seq<u8>)>, int), CgiError>(
                (h.status_code, fields_view(h.headers@), h.body_start as int),
            ),
            Err(e) => cgi_head(out@) == Err::<(u16, Seq<(Seq<u8>, Seq<u8>)>, int), CgiError>(e),
        },
{
    let mut pos: usize = 0;
    let mut head = HeadLines::new();
    assert(fields_view(head.headers@) =~= seq![]);
    while pos < out.len()
        invariant
            pos <= out@.len(),
            parse_head(out@, pos as int, head.status_code, fields_view(head.headers@)) == cgi_head(out@),
        decreases out.len() - pos,
    {
        let mut j: usize = pos;
        while j < out.len() && out[j] != 0x0a
            invariant
                pos <= j <= out@.len(),
                forall|k: int| pos <= k < j ==> out@[k] != 0x0a,
            decreases out.len() - j,
        {
            j = j + 1;
        }
        proof {
            lemma_next_newline_at(out@, pos as int, j as int);
        }
        let end: usize = if j < out.len() && j > pos && out[j - 1] == 0x0d {
            j - 1
        } else {
            j
        };
        let next: usize = if j < out.len() {
            j + 1
        } else {
            out.len()
        };
        let line = copy_range(out, pos, end);
        match head.head_step(line.as_slice()) {
            Err(e) => {
                return Err(e);
            },
            Ok(more) => {
                if !more {
                    return Ok(CgiHead { status_code: head.status_code, headers: head.headers, body_start: next });
                }
            },
        }
        pos = next;
    }
    Ok(CgiHead { status_code: head.status_code, headers: head.headers, body_start: out.len() })
}

} // verus!
