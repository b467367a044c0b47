use vstd::prelude::*;
use vstd::string::{StrSliceExecFns, StringExecFns};

use crate::launcher::entries_view;
use crate::panel::XunleiPanelServer;

verus! {

/// The upper-case form of `s`, as `str::to_uppercase` gives it.
pub uninterp spec fn upper_of(s: Seq<char>) -> Seq<char>;

/// Relies on str::to_uppercase: the result depends on the characters alone.
#[verifier::external_body]
fn to_uppercase(s: &str) -> (r: String)
    ensures
        r@ == upper_of(s@),
{
    s.to_uppercase()
}

/// What the CGI program is told of one request, as text.
pub struct CgiRequest {
    pub method: String,
    pub raw_query_string: String,
    pub raw_url: String,
    /// The decoded path, without the query.
    pub url: String,
    pub remote_addr: String,
    /// The panel's listening port, in decimal.
    pub server_port: String,
    pub headers: Vec<(String, String)>,
}

/// `c` with ASCII upper-case letters made lower-case, as a code point.
pub open spec fn fold_ascii(c: char) -> u32 {
    if 'A' <= c <= 'Z' {
        (c as u32 + 32) as u32
    } else {
        c as u32
    }
}

/// `a` and `b` are equal but for ASCII case.
pub open spec fn eq_ascii_ci(a: Seq<char>, b: Seq<char>) -> bool {
    a.len() == b.len() && forall|i: int| 0 <= i < a.len() ==> fold_ascii(#[trigger] a[i]) == fold_ascii(b[i])
}

/// The value of the first header named `name`, ASCII case aside.
pub open spec fn header_value(hs: Seq<(Seq<char>, Seq<char>)>, name: Seq<char>) -> Option<Seq<char>>
    decreases hs.len(),
{
    if hs.len() == 0 {
        None
    } else if eq_ascii_ci(hs[0].0, name) {
        Some(hs[0].1)
    } else {
        header_value(hs.drop_first(), name)
    }
}

/// The `HTTP_` variables for the headers: every header but `Proxy` whose
/// value is not empty, in order.
pub open spec fn header_vars(hs: Seq<(Seq<char>, Seq<char>)>) -> Seq<(Seq<char>, Seq<char>)>
    decreases hs.len(),
{
    if hs.len() == 0 {
        Seq::empty()
    } else {
        let (k, v) = hs.last();
        let up = upper_of(k);
        let rest = header_vars(hs.drop_last());
        if up == "PROXY"@ || v.len() == 0 {
            rest
        } else {
            rest.push(("HTTP_"@ + up, v))
        }
    }
}

/// A variable set where a header of that name has a non-empty value.
pub open spec fn optional_var(hs: Seq<(Seq<char>, Seq<char>)>, header: Seq<char>, var: Seq<char>) -> Seq<(Seq<char>, Seq<char>)> {
    match header_value(hs, header) {
        Some(v) => if v.len() > 0 {
            seq![(var, v)]
        } else {
            Seq::empty()
        },
        None => Seq::empty(),
    }
}

/// The CGI protocol variables of a request.
pub open spec fn request_vars(req: CgiRequest) -> Seq<(Seq<char>, Seq<char>)> {
    seq![
        ("SERVER_SOFTWARE"@, "rust"@),
        ("SERVER_PROTOCOL"@, "HTTP/1.1"@),
        ("HTTP_HOST"@, req.remote_addr@),
        ("GATEWAY_INTERFACE"@, "CGI/1.1"@),
        ("REQUEST_METHOD"@, req.method@),
        ("QUERY_STRING"@, req.raw_query_string@),
        ("REQUEST_URI"@, req.raw_url@),
        ("PATH_INFO"@, req.url@),
        ("SCRIPT_NAME"@, "."@),
        ("SCRIPT_FILENAME"@, req.url@),
        ("SERVER_PORT"@, req.server_port@),
        ("REMOTE_ADDR"@, req.remote_addr@),
        ("SERVER_NAME"@, req.remote_addr@),
    ]
}

/// The whole environment of the CGI program, to be applied in order (a later
/// entry wins over an earlier one of the same name).
pub open spec fn cgi_env(base: Seq<(Seq<char>, Seq<char>)>, req: CgiRequest) -> Seq<(Seq<char>, Seq<char>)> {
    let hs = entries_view(req.headers@);
    base + request_vars(req) + header_vars(hs)
        + optional_var(hs, "Content-Type"@, "CONTENT_TYPE"@)
        + optional_var(hs, "Content-Length"@, "CONTENT_LENGTH"@)
}

fn push_pair(out: &mut Vec<(String, String)>, k: String, v: String)
    ensures
        entries_view(final(out)@) == entries_view(old(out)@).push((k@, v@)),
{
    let ghost kv = k@;
    let ghost vv = v@;
    out.push((k, v));
    proof {
        assert(entries_view(final(out)@) =~= entries_view(old(out)@).push((kv, vv)));
    }
}

fn push_text(out: &mut Vec<(String, String)>, k: &str, v: &String)
    ensures
        entries_view(final(out)@) == entries_view(old(out)@).push((k@, v@)),
{
    push_pair(out, String::from_str(k), v.clone());
}

fn eq_ci(a: &str, b: &str) -> (r: bool)
    ensures
        r == eq_ascii_ci(a@, b@),
{
    let n = a.unicode_len();
    if n != b.unicode_len() {
        return false;
    }
    let mut i: usize = 0;
    while i < n
        invariant
            n == a@.len() == b@.len(),
            i <= n,
            forall|k: int| 0 <= k < i ==> fold_ascii(#[trigger] a@[k]) == fold_ascii(b@[k]),
        decreases n - i,
    {
        let x = a.get_char(i);
        let y = b.get_char(i);
        let fx: u32 = if 'A' <= x && x <= 'Z' { x as u32 + 32 } else { x as u32 };
        let fy: u32 = if 'A' <= y && y <= 'Z' { y as u32 + 32 } else { y as u32 };
        if fx != fy {
            return false;
        }
        i = i + 1;
    }
    true
}

fn find_header(headers: &Vec<(String, String)>, name: &str) -> (r: Option<usize>)
    ensures
        match r {
            Some(i) => i < headers@.len() && header_value(entries_view(headers@), name@) == Some(headers@[i as int].1@),
            None => header_value(entries_view(headers@), name@) is None,
        },
{
    let ghost hs = entries_view(headers@);
    assert(hs.subrange(0, hs.len() as int) =~= hs);
    let mut i: usize = 0;
    while i < headers.len()
        invariant
            i <= headers@.len(),
            hs == entries_view(headers@),
            header_value(hs.subrange(i as int, hs.len() as int), name@) == header_value(hs, name@),
        decreases headers.len() - i,
    {
        let ghost tail = hs.subrange(i as int, hs.len() as int);
        assert(tail.drop_first() =~= hs.subrange(i + 1, hs.len() as int));
        assert(tail[0] == (headers@[i as int].0@, headers@[i as int].1@));
        if eq_ci(headers[i].0.as_str(), name) {
            return Some(i);
        }
        i = i + 1;
    }
    assert(hs.subrange(i as int, hs.len() as int) =~= Seq::<(Seq<char>, Seq<char>)>::empty());
    None
}

fn push_optional(out: &mut Vec<(String, String)>, headers: &Vec<(String, String)>, header: &str, var: &str)
    ensures
        entries_view(final(out)@) == entries_view(old(out)@) + optional_var(entries_view(headers@), header@, var@),
{
    match find_header(headers, header) {
        Some(i) => {
            if headers[i].1.unicode_len() > 0 {
                push_text(out, var, &headers[i].1);
                assert(entries_view(final(out)@) =~= entries_view(old(out)@) + optional_var(entries_view(headers@), header@, var@));
            } else {
                assert(entries_view(final(out)@) =~= entries_view(old(out)@) + optional_var(entries_view(headers@), header@, var@));
            }
        },
        None => {
            assert(entries_view(final(out)@) =~= entries_view(old(out)@) + optional_var(entries_view(headers@), header@, var@));
        },
    }
}

impl XunleiPanelServer {
    /// The environment the CGI program runs with for `req`.
    pub fn cgi_envs(&self, req: &CgiRequest) -> (r: Vec<(String, String)>)
        ensures
            entries_view(r@) == cgi_env(entries_view(self.envs@), *req),
    {
        let mut out: Vec<(String, String)> = Vec::new();
        let mut b: usize = 0;
        while b < self.envs.len()
            invariant
                b <= self.envs@.len(),
                entries_view(out@) == entries_view(self.envs@).take(b as int),
            decreases self.envs.len() - b,
        {
            let ghost before = out@;
            push_text(&mut out, self.envs[b].0.as_str(), &self.envs[b].1);
            assert(entries_view(self.envs@).take(b + 1) =~= entries_view(self.envs@).take(b as int).push(
                (self.envs@[b as int].0@, self.envs@[b as int].1@)));
            b = b + 1;
        }
        assert(entries_view(self.envs@).take(b as int) =~= entries_view(self.envs@));
        let ghost base = entries_view(out@);
        push_text(&mut out, "SERVER_SOFTWARE", &String::from_str("rust"));
        push_text(&mut out, "SERVER_PROTOCOL", &String::from_str("HTTP/1.1"));
        push_text(&mut out, "HTTP_HOST", &req.remote_addr);
        push_text(&mut out, "GATEWAY_INTERFACE", &String::from_str("CGI/1.1"));
        push_text(&mut out, "REQUEST_METHOD", &req.method);
        push_text(&mut out, "QUERY_STRING", &req.raw_query_string);
        push_text(&mut out, "REQUEST_URI", &req.raw_url);
        push_text(&mut out, "PATH_INFO", &req.url);
        push_text(&mut out, "SCRIPT_NAME", &String::from_str("."));
        push_text(&mut out, "SCRIPT_FILENAME", &req.url);
        push_text(&mut out, "SERVER_PORT", &req.server_port);
        push_text(&mut out, "REMOTE_ADDR", &req.remote_addr);
        push_text(&mut out, "SERVER_NAME", &req.remote_addr);
        assert(entries_view(out@) =~= base + request_vars(*req));
        let ghost fixed = entries_view(out@);
        let ghost hs = entries_view(req.headers@);
        let mut i: usize = 0;
        while i < req.headers.len()
            invariant
                i <= req.headers@.len(),
                hs == entries_view(req.headers@),
                entries_view(out@) == fixed + header_vars(hs.take(i as int)),
            decreases req.headers.len() - i,
        {
            let k = to_uppercase(req.headers[i].0.as_str());
            let v = &req.headers[i].1;
            let ghost pre = hs.take(i + 1);
            assert(pre.drop_last() =~= hs.take(i as int));
            assert(pre.last() == (req.headers@[i as int].0@, req.headers@[i as int].1@));
            if k == String::from_str("PROXY") || v.unicode_len() == 0 {
            } else {
                let mut name = String::from_str("HTTP_");
                name.append(k.as_str());
                push_pair(&mut out, name, v.clone());
                assert(entries_view(out@) =~= fixed + header_vars(pre));
            }
            i = i + 1;
        }
        assert(hs.take(i as int) =~= hs);
        push_optional(&mut out, &req.headers, "Content-Type", "CONTENT_TYPE");
        push_optional(&mut out, &req.headers, "Content-Length", "CONTENT_LENGTH");
        assert(entries_view(out@) =~= cgi_env(entries_view(self.envs@), *req));
        out
    }
}

} // verus!
