//! Decisions of the web server: where a request's head ends, what its head
//! asks for, and where its path is routed. The server's tasks read and
//! write the sockets and act on these decisions.

use crate::fmt::{bytes_contain, chars_of, contains_bytes, has_prefix_at, prefix_at, rest_is};
use crate::http::assets::{asset_path, static_assets, static_asset_list, Asset};
use crate::fmt::{append_hex, hex_upper, string_of};
use crate::http::{
    method_of, ContentType, ContentView, Header, Method, Response, ResponseContent, ResponseView, Rest,
    StatusCode, HTTPD_BODY_BUF_SIZE, HTTPD_HEADER_BUF_SIZE, HTTPD_MAX_HEADERS, status_response,
};
use vstd::prelude::*;

verus! {

/// The blank line that ends a request head.
pub open spec fn head_terminator() -> Seq<u8> {
    seq![13u8, 10u8, 13u8, 10u8]
}

/// Whether the blank line ending a head starts at `i` in `b`.
pub open spec fn terminator_at(b: Seq<u8>, i: int) -> bool {
    0 <= i && i + 4 <= b.len() && b.subrange(i, i + 4) == head_terminator()
}

/// The length of a request head: up to and including the first blank line,
/// if `b` holds one.
pub open spec fn head_end(b: Seq<u8>) -> Option<int> {
    if exists|i: int| #[trigger] terminator_at(b, i) {
        let i = choose|i: int| #[trigger] terminator_at(b, i) && forall|j: int| 0 <= j < i ==> !terminator_at(b, j);
        Some(i + 4)
    } else {
        None
    }
}

/// Finds the end of a request head: the position just after the first
/// `\r\n\r\n` in `buf`, if there is one.
pub fn find_header_end(buf: &[u8]) -> (r: Option<usize>)
    ensures
        match r {
            Some(e) => e >= 4 && terminator_at(buf@, e - 4) && forall|j: int|
                0 <= j < e - 4 ==> !terminator_at(buf@, j),
            None => forall|j: int| !terminator_at(buf@, j),
        },
{
    if buf.len() < 4 {
        return None;
    }
    let last = buf.len() - 4;
    let mut i: usize = 0;
    while i <= last
        invariant
            last == buf@.len() - 4,
            buf@.len() <= usize::MAX,
            i <= last + 1,
            forall|j: int| 0 <= j < i ==> !terminator_at(buf@, j),
        decreases last + 1 - i,
    {
        if buf[i] == 13 && buf[i + 1] == 10 && buf[i + 2] == 13 && buf[i + 3] == 10 {
            assert(buf@.subrange(i as int, i + 4) =~= head_terminator());
            return Some(i + 4);
        }
        assert(!terminator_at(buf@, i as int)) by {
            if terminator_at(buf@, i as int) {
                assert(buf@.subrange(i as int, i + 4)[0] == 13u8);
                assert(buf@.subrange(i as int, i + 4)[1] == 10u8);
                assert(buf@.subrange(i as int, i + 4)[2] == 13u8);
                assert(buf@.subrange(i as int, i + 4)[3] == 10u8);
            }
        }
        i = i + 1;
    }
    None
}

/// A parsed request head, as values: method, path, and each header slot's
/// name and value.
pub type HeadView = (Option<Seq<char>>, Option<Seq<char>>, Seq<(Seq<char>, Seq<u8>)>);

/// What `httparse::Request::parse` makes of a request head, read with
/// [`HTTPD_MAX_HEADERS`] header slots: `None` where it reports an error;
/// otherwise the method and path it found and the contents of every header
/// slot afterwards.
pub uninterp spec fn parsed_request_head(buf: Seq<u8>) -> Option<HeadView>;

/// A parsed request head.
pub struct RequestHead {
    pub method: Option<String>,
    pub path: Option<String>,
    pub headers: Vec<(String, Vec<u8>)>,
}

/// A header slot, as values.
pub open spec fn header_view(h: (String, Vec<u8>)) -> (Seq<char>, Seq<u8>) {
    (h.0@, h.1@)
}

impl View for RequestHead {
    type V = HeadView;

    open spec fn view(&self) -> HeadView {
        (
            match self.method {
                Some(m) => Some(m@),
                None => None,
            },
            match self.path {
                Some(p) => Some(p@),
                None => None,
            },
            self.headers@.map_values(|h: (String, Vec<u8>)| header_view(h)),
        )
    }
}

/// Parses a request head with `httparse::Request::parse`, into
/// [`HTTPD_MAX_HEADERS`] header slots. The result is
/// [`parsed_request_head`] of `buf`: nothing of the parser's grammar is
/// stated here.
#[verifier::external_body]
fn parse_request_head(buf: &[u8]) -> (r: Option<RequestHead>)
    ensures
        match r {
            Some(h) => parsed_request_head(buf@) == Some(h@),
            None => parsed_request_head(buf@) is None,
        },
{
    let mut slots = [httparse::EMPTY_HEADER; HTTPD_MAX_HEADERS];
    let mut req = httparse::Request::new(&mut slots);
    let parsed = req.parse(buf).is_ok();
    let method = req.method.map(String::from);
    let path = req.path.map(String::from);
    if !parsed {
        return None;
    }
    let headers = slots.iter().map(|h| (String::from(h.name), h.value.to_vec())).collect();
    Some(RequestHead { method, path, headers })
}

/// Whether `bytes` are valid UTF-8, as `core::str::from_utf8` decides.
#[verifier::external_body]
fn is_utf8(bytes: &[u8]) -> (r: bool)
    ensures
        r == vstd::utf8::valid_utf8(bytes@),
{
    core::str::from_utf8(bytes).is_ok()
}

/// A character in lower case, where it is an ASCII capital.
pub open spec fn ascii_lower(c: char) -> char {
    if 'A' <= c && c <= 'Z' {
        ((c as u32) + 32) as char
    } else {
        c
    }
}

/// Whether two names are equal, ignoring ASCII case.
pub open spec fn eq_ignore_case(a: Seq<char>, b: Seq<char>) -> bool {
    a.len() == b.len() && forall|i: int| 0 <= i < a.len() ==> ascii_lower(#[trigger] a[i]) == ascii_lower(b[i])
}

fn lower(c: char) -> (r: char)
    ensures
        r == ascii_lower(c),
{
    if 'A' <= c && c <= 'Z' {
        let b = (c as u8) + 32;
        b as char
    } else {
        c
    }
}

/// The first header slot whose name is `name`, ignoring case.
pub open spec fn find_header(h: Seq<(Seq<char>, Seq<u8>)>, name: Seq<char>) -> Option<Seq<u8>>
    decreases h.len(),
{
    if h.len() == 0 {
        None
    } else if eq_ignore_case(h[0].0, name) {
        Some(h[0].1)
    } else {
        find_header(h.drop_first(), name)
    }
}

/// The value of an ASCII decimal digit byte.
pub open spec fn dec_digit(b: u8) -> nat {
    (b - 48) as nat
}

/// The number that decimal digit bytes spell.
pub open spec fn dec_value(s: Seq<u8>) -> nat
    decreases s.len(),
{
    if s.len() == 0 {
        0
    } else {
        dec_value(s.drop_last()) * 10 + dec_digit(s.last())
    }
}

/// Whether every byte is an ASCII decimal digit.
pub open spec fn all_dec_digits(s: Seq<u8>) -> bool {
    forall|i: int| 0 <= i < s.len() ==> 48 <= #[trigger] s[i] <= 57
}

/// The `usize` that `s` spells in decimal, as `str::parse::<usize>` reads
/// it: an optional `+`, then at least one digit, with a value that fits.
pub open spec fn parse_usize(s: Seq<u8>) -> Option<usize> {
    let digits = if s.len() > 0 && s[0] == 43u8 {
        s.skip(1)
    } else {
        s
    };
    if digits.len() == 0 || !all_dec_digits(digits) || dec_value(digits) > usize::MAX {
        None
    } else {
        Some(dec_value(digits) as usize)
    }
}

/// The body length a head announces: its first `Content-Length` header's
/// value, where that parses; else zero.
pub open spec fn content_length_of(h: Seq<(Seq<char>, Seq<u8>)>) -> usize {
    match find_header(h, "content-length"@) {
        Some(v) => match parse_usize(v) {
            Some(n) => n,
            None => 0,
        },
        None => 0,
    }
}

/// The `Accept` header's value as text: its bytes where they are UTF-8,
/// else nothing.
pub open spec fn accept_of(h: Seq<(Seq<char>, Seq<u8>)>) -> Seq<u8> {
    match find_header(h, "accept"@) {
        Some(v) => if vstd::utf8::valid_utf8(v) {
            v
        } else {
            Seq::empty()
        },
        None => Seq::empty(),
    }
}

/// The format a client asks for: JSON where its `Accept` header names
/// `application/json`, else HTML where it names `html` or `*/*`, else none.
pub open spec fn format_of(accept: Seq<u8>) -> Option<ContentType> {
    if bytes_contain(accept, "application/json"@.map_values(|c: char| c as u8)) {
        Some(ContentType::Json)
    } else if bytes_contain(accept, "html"@.map_values(|c: char| c as u8)) || bytes_contain(
        accept,
        "*/*"@.map_values(|c: char| c as u8),
    ) {
        Some(ContentType::Html)
    } else {
        None
    }
}

/// What the server does with a parsed request head.
#[derive(Debug, Clone, Copy, PartialEq, Eq, Structural)]
pub enum HeadOutcome {
    /// Answer `400 Bad Request`, with no path.
    BadRequest,
    /// The method is not served: answer `400 Bad Request` for the path.
    BadMethod,
    /// There is a method but no path: answer `404 Not Found`, with the
    /// method standing as the path.
    NoPath,
    /// The announced body is larger than the body buffer: answer
    /// `413 Payload Too Large` for the path.
    TooLarge,
    /// Read `content_length` body bytes and route the request, answering in
    /// `format`.
    Accept { method: Method, content_length: usize, format: Option<ContentType> },
}

/// What the server does with the result of parsing a request head: a
/// parse error, or no method, is a bad request; an unknown method, a bad
/// request for the path; a method and no path, not found; a body announced
/// larger than [`HTTPD_BODY_BUF_SIZE`], too large; otherwise the request is
/// accepted with its method, body length and response format.
pub open spec fn head_outcome(parsed: Option<HeadView>) -> HeadOutcome {
    match parsed {
        None => HeadOutcome::BadRequest,
        Some((method, path, headers)) => match (method, path) {
            (None, _) => HeadOutcome::BadRequest,
            (Some(m), None) => HeadOutcome::NoPath,
            (Some(m), Some(p)) => match method_of(m) {
                None => HeadOutcome::BadMethod,
                Some(method) => if content_length_of(headers) > HTTPD_BODY_BUF_SIZE {
                    HeadOutcome::TooLarge
                } else {
                    HeadOutcome::Accept {
                        method,
                        content_length: content_length_of(headers),
                        format: format_of(accept_of(headers)),
                    }
                },
            },
        },
    }
}


/// The low byte of each character of `s`.
pub fn ascii_bytes(s: &str) -> (r: Vec<u8>)
    ensures
        r@ == s@.map_values(|c: char| c as u8),
{
    let cs = chars_of(s);
    let mut v: Vec<u8> = Vec::new();
    let mut i: usize = 0;
    while i < cs.len()
        invariant
            cs@ == s@,
            i <= cs@.len(),
            v@ == cs@.take(i as int).map_values(|c: char| c as u8),
        decreases cs@.len() - i,
    {
        v.push(cs[i] as u8);
        assert(cs@.take(i + 1).map_values(|c: char| c as u8) =~= cs@.take(i as int).map_values(
            |c: char| c as u8,
        ).push(cs@[i as int] as u8));
        i = i + 1;
    }
    assert(cs@.take(cs@.len() as int) =~= cs@);
    v
}

/// Whether two names are equal, ignoring ASCII case.
pub fn names_match(a: &str, b: &str) -> (r: bool)
    ensures
        r == eq_ignore_case(a@, b@),
{
    let ac = chars_of(a);
    let bc = chars_of(b);
    if ac.len() != bc.len() {
        return false;
    }
    let mut i: usize = 0;
    while i < ac.len()
        invariant
            ac@ == a@,
            bc@ == b@,
            ac@.len() == bc@.len(),
            i <= ac@.len(),
            forall|j: int| 0 <= j < i ==> ascii_lower(#[trigger] ac@[j]) == ascii_lower(bc@[j]),
        decreases ac@.len() - i,
    {
        if lower(ac[i]) != lower(bc[i]) {
            return false;
        }
        i = i + 1;
    }
    true
}

/// The slot of the first header named `name`, ignoring case.
fn find_header_slot(headers: &Vec<(String, Vec<u8>)>, name: &str) -> (r: Option<usize>)
    ensures
        ({
            let hv = headers@.map_values(|h: (String, Vec<u8>)| header_view(h));
            match r {
                Some(i) => i < headers@.len() && find_header(hv, name@) == Some(hv[i as int].1),
                None => find_header(hv, name@) is None,
            }
        }),
{
    let ghost hv = headers@.map_values(|h: (String, Vec<u8>)| header_view(h));
    let mut i: usize = 0;
    assert(hv.skip(0) =~= hv);
    while i < headers.len()
        invariant
            hv == headers@.map_values(|h: (String, Vec<u8>)| header_view(h)),
            i <= headers@.len(),
            find_header(hv, name@) == find_header(hv.skip(i as int), name@),
        decreases headers@.len() - i,
    {
        assert(hv.skip(i as int)[0] == hv[i as int]);
        if names_match(headers[i].0.as_str(), name) {
            return Some(i);
        }
        assert(hv.skip(i as int).drop_first() =~= hv.skip(i + 1));
        i = i + 1;
    }
    None
}

/// Reads a `usize` written in decimal (see [`parse_usize`]).
pub fn parse_decimal(s: &[u8]) -> (r: Option<usize>)
    ensures
        r == parse_usize(s@),
{
    let n = s.len();
    let mut start: usize = 0;
    if n > 0 && s[0] == 43u8 {
        start = 1;
    }
    let ghost digits = s@.skip(start as int);
    assert(digits =~= (if s@.len() > 0 && s@[0] == 43u8 { s@.skip(1) } else { s@ }));
    if start >= n {
        return None;
    }
    let mut value: usize = 0;
    let mut i: usize = start;
    while i < n
        invariant
            start <= i <= n,
            n == s@.len(),
            digits == s@.skip(start as int),
            digits.len() > 0,
            parse_usize(s@) == (if !all_dec_digits(digits) || dec_value(digits) > usize::MAX {
                None
            } else {
                Some(dec_value(digits) as usize)
            }),
            all_dec_digits(s@.subrange(start as int, i as int)),
            value == dec_value(s@.subrange(start as int, i as int)),
        decreases n - i,
    {
        let b = s[i];
        if b < 48 || b > 57 {
            assert(!(48 <= digits[i - start] <= 57));
            return None;
        }
        proof {
            assert(s@.subrange(start as int, i + 1) =~= s@.subrange(start as int, i as int).push(b));
            assert(s@.subrange(start as int, i + 1).drop_last() =~= s@.subrange(start as int, i as int));
        }
        let d = (b - 48) as usize;
        if value > (usize::MAX - d) / 10 {
            proof {
                assert(value * 10 + d > usize::MAX) by (nonlinear_arith)
                    requires value > (usize::MAX - d) / 10, d <= 9;
                lemma_dec_value_prefix_le(digits, (i + 1 - start) as nat);
                assert(digits.subrange(0, i + 1 - start) =~= s@.subrange(start as int, i + 1));
            }
            return None;
        }
        assert(value * 10 + d <= usize::MAX) by (nonlinear_arith)
            requires value <= (usize::MAX - d) / 10, d <= 9;
        value = value * 10 + d;
        i = i + 1;
    }
    assert(s@.subrange(start as int, n as int) =~= digits);
    Some(value)
}

proof fn lemma_dec_value_prefix_le(s: Seq<u8>, k: nat)
    requires
        k <= s.len(),
        all_dec_digits(s.subrange(0, k as int)),
    ensures
        all_dec_digits(s) ==> dec_value(s.subrange(0, k as int)) <= dec_value(s),
    decreases s.len(),
{
    if k < s.len() && all_dec_digits(s) {
        let t = s.drop_last();
        assert(t.subrange(0, k as int) =~= s.subrange(0, k as int));
        assert(all_dec_digits(t));
        lemma_dec_value_prefix_le(t, k);
    } else if k == s.len() {
        assert(s.subrange(0, k as int) =~= s);
    }
}

/// Decides what to do with a parsed request head (see [`head_outcome`]).
pub fn decide_head(head: &RequestHead) -> (r: HeadOutcome)
    ensures
        r == head_outcome(Some(head@)),
{
    let ghost hv = head@.2;
    let method_str = match &head.method {
        None => return HeadOutcome::BadRequest,
        Some(m) => m,
    };
    let path_present = head.path.is_some();
    if !path_present {
        return HeadOutcome::NoPath;
    }
    let method = match Method::from_str(method_str.as_str()) {
        None => return HeadOutcome::BadMethod,
        Some(m) => m,
    };
    let content_length = match find_header_slot(&head.headers, "content-length") {
        Some(i) => match parse_decimal(head.headers[i].1.as_slice()) {
            Some(n) => n,
            None => 0,
        },
        None => 0,
    };
    assert(content_length == content_length_of(hv));
    if content_length > HTTPD_BODY_BUF_SIZE {
        return HeadOutcome::TooLarge;
    }
    let empty: Vec<u8> = Vec::new();
    let accept: &[u8] = match find_header_slot(&head.headers, "accept") {
        Some(i) => if is_utf8(head.headers[i].1.as_slice()) {
            head.headers[i].1.as_slice()
        } else {
            empty.as_slice()
        },
        None => empty.as_slice(),
    };
    assert(accept@ == accept_of(hv));
    let format = if contains_bytes(accept, ascii_bytes("application/json").as_slice()) {
        Some(ContentType::Json)
    } else if contains_bytes(accept, ascii_bytes("html").as_slice()) || contains_bytes(
        accept,
        ascii_bytes("*/*").as_slice(),
    ) {
        Some(ContentType::Html)
    } else {
        None
    };
    HeadOutcome::Accept { method, content_length, format }
}

/// Parses a request head and decides what to do with it (see
/// [`head_outcome`]); the parsed head is handed back where the parser
/// accepted it.
pub fn read_head(buf: &[u8]) -> (r: (HeadOutcome, Option<RequestHead>))
    ensures
        r.0 == head_outcome(parsed_request_head(buf@)),
        match r.1 {
            Some(h) => parsed_request_head(buf@) == Some(h@),
            None => parsed_request_head(buf@) is None,
        },
{
    match parse_request_head(buf) {
        Some(head) => {
            let outcome = decide_head(&head);
            (outcome, Some(head))
        },
        None => (HeadOutcome::BadRequest, None),
    }
}


/// What the server does after a read into the head buffer.
#[derive(Debug, Clone, Copy, PartialEq, Eq, Structural)]
pub enum HeadRead {
    /// The client closed the connection: a network error, and no response.
    Closed,
    /// No blank line yet: read more, with `total` bytes now held.
    More { total: usize },
    /// The head buffer is full and holds no blank line: answer
    /// `413 Payload Too Large`.
    TooLarge,
    /// The head is complete: it is the first `end` of the `total` bytes held.
    Complete { total: usize, end: usize },
}

/// Decides what follows a read of `n` bytes into the head buffer `buf`,
/// which held `total_read` bytes before it: a read of nothing means the
/// client closed the connection; otherwise the head is complete once the
/// bytes held contain a blank line, and too large once they fill
/// [`HTTPD_HEADER_BUF_SIZE`] without one.
pub fn after_head_read(buf: &[u8], total_read: usize, n: usize) -> (r: HeadRead)
    requires
        total_read + n <= buf@.len(),
    ensures
        (n == 0) <==> r is Closed,
        match r {
            HeadRead::Closed => true,
            HeadRead::More { total } => {
                &&& total == total_read + n
                &&& total < HTTPD_HEADER_BUF_SIZE
                &&& forall|j: int| !#[trigger] terminator_at(buf@.subrange(0, total as int), j)
            },
            HeadRead::TooLarge => {
                &&& total_read + n >= HTTPD_HEADER_BUF_SIZE
                &&& forall|j: int| !#[trigger] terminator_at(buf@.subrange(0, total_read + n), j)
            },
            HeadRead::Complete { total, end } => {
                &&& total == total_read + n
                &&& end >= 4
                &&& terminator_at(buf@.subrange(0, total as int), end - 4)
                &&& forall|j: int|
                    0 <= j < end - 4 ==> !#[trigger] terminator_at(buf@.subrange(0, total as int), j)
            },
        },
{
    if n == 0 {
        return HeadRead::Closed;
    }
    let len = buf.len();
    assert(total_read + n <= len);
    let total = total_read + n;
    match find_header_end(&buf[0..total]) {
        Some(end) => HeadRead::Complete { total, end },
        None => if total >= HTTPD_HEADER_BUF_SIZE {
            HeadRead::TooLarge
        } else {
            HeadRead::More { total }
        },
    }
}

/// The method text of a parsed head, empty where there is none.
pub open spec fn head_method_text(head: Option<RequestHead>) -> Seq<char> {
    match head {
        Some(h) => match h.method {
            Some(m) => m@,
            None => Seq::empty(),
        },
        None => Seq::empty(),
    }
}

/// The path of a parsed head, empty where there is none.
pub open spec fn head_path_text(head: Option<RequestHead>) -> Seq<char> {
    match head {
        Some(h) => match h.path {
            Some(p) => p@,
            None => Seq::empty(),
        },
        None => Seq::empty(),
    }
}

fn head_method_str(head: &Option<RequestHead>) -> (r: &str)
    ensures
        r@ == head_method_text(*head),
{
    match head {
        Some(h) => match &h.method {
            Some(m) => m.as_str(),
            None => {
                proof {
                    reveal_strlit("");
                }
                ""
            },
        },
        None => {
            proof {
                reveal_strlit("");
            }
            ""
        },
    }
}

/// The path of a parsed head, empty where there is none.
pub fn head_path(head: &Option<RequestHead>) -> (r: &str)
    ensures
        r@ == head_path_text(*head),
{
    match head {
        Some(h) => match &h.path {
            Some(p) => p.as_str(),
            None => {
                proof {
                    reveal_strlit("");
                }
                ""
            },
        },
        None => {
            proof {
                reveal_strlit("");
            }
            ""
        },
    }
}

/// The response that a head outcome other than acceptance calls for, with
/// no response format yet known: a bare `400 Bad Request`; a bad request
/// for the path where the method is not served; not found, with the method
/// standing as the path, where there is no path; too large for the path.
/// An accepted head gets no response here.
pub fn head_response(outcome: HeadOutcome, head: &Option<RequestHead>) -> (r: Option<Response>)
    ensures
        match outcome {
            HeadOutcome::BadRequest => r matches Some(x) && x@ == status_response(
                None,
                None,
                StatusCode::BadRequest,
            ),
            HeadOutcome::BadMethod => r matches Some(x) && x@ == status_response(
                None,
                Some(head_path_text(*head)),
                StatusCode::BadRequest,
            ),
            HeadOutcome::NoPath => r matches Some(x) && x@ == status_response(
                None,
                Some(head_method_text(*head)),
                StatusCode::NotFound,
            ),
            HeadOutcome::TooLarge => r matches Some(x) && x@ == status_response(
                None,
                Some(head_path_text(*head)),
                StatusCode::TooLarge,
            ),
            HeadOutcome::Accept { .. } => r is None,
        },
{
    match outcome {
        HeadOutcome::BadRequest => Some(Response::status_code(None, None, StatusCode::BadRequest)),
        HeadOutcome::BadMethod => Some(Response::bad_request(None, head_path(head))),
        HeadOutcome::NoPath => Some(Response::not_found(None, head_method_str(head))),
        HeadOutcome::TooLarge => Some(Response::too_large(None, head_path(head))),
        HeadOutcome::Accept { .. } => None,
    }
}

/// How many body bytes arrived with the head: those held after the head,
/// at most `content_length`.
pub open spec fn body_already(total_read: int, header_end: int, content_length: int) -> int {
    if total_read - header_end < content_length {
        total_read - header_end
    } else {
        content_length
    }
}

/// Copies the body bytes that arrived with the head (see
/// [`body_already`]) to the start of `body`, and returns how many there
/// were; the rest of `body` is left as it was.
pub fn copy_body_start(
    header_buf: &[u8],
    total_read: usize,
    header_end: usize,
    content_length: usize,
    body: &mut [u8],
) -> (r: usize)
    requires
        header_end <= total_read <= header_buf@.len(),
        content_length <= old(body)@.len(),
    ensures
        r == body_already(total_read as int, header_end as int, content_length as int),
        final(body)@.len() == old(body)@.len(),
        final(body)@.subrange(0, r as int) == header_buf@.subrange(
            header_end as int,
            header_end + r,
        ),
        final(body)@.subrange(r as int, final(body)@.len() as int) == old(body)@.subrange(
            r as int,
            old(body)@.len() as int,
        ),
{
    let len = header_buf.len();
    let already = total_read - header_end;
    let count = if already < content_length {
        already
    } else {
        content_length
    };
    let mut i: usize = 0;
    while i < count
        invariant
            count <= content_length <= old(body)@.len(),
            header_end + count <= header_buf@.len(),
            header_buf@.len() == len,
            i <= count,
            body@.len() == old(body)@.len(),
            forall|k: int| 0 <= k < i ==> body@[k] == header_buf@[header_end + k],
            forall|k: int| i <= k < body@.len() ==> body@[k] == old(body)@[k],
        decreases count - i,
    {
        body[i] = header_buf[header_end + i];
        i = i + 1;
    }
    assert(body@.subrange(0, count as int) =~= header_buf@.subrange(
        header_end as int,
        header_end + count,
    ));
    assert(body@.subrange(count as int, body@.len() as int) =~= old(body)@.subrange(
        count as int,
        old(body)@.len() as int,
    ));
    count
}

/// What the server does after a read into the body buffer.
#[derive(Debug, Clone, Copy, PartialEq, Eq, Structural)]
pub enum BodyRead {
    /// The client closed the connection: a network error, and no response.
    Closed,
    /// The body is not complete: read more, with `read` bytes now held.
    More { read: usize },
    /// The whole body is held.
    Complete,
}

/// Decides what follows a read of `n` body bytes, with `body_read` held
/// before it and `content_length` announced: a read of nothing means the
/// client closed the connection; otherwise the body is complete once
/// `content_length` bytes are held.
pub fn after_body_read(body_read: usize, n: usize, content_length: usize) -> (r: BodyRead)
    requires
        body_read < content_length,
        n <= content_length - body_read,
    ensures
        r == (if n == 0 {
            BodyRead::Closed
        } else if body_read + n == content_length {
            BodyRead::Complete
        } else {
            BodyRead::More { read: (body_read + n) as usize }
        }),
{
    if n == 0 {
        BodyRead::Closed
    } else if body_read + n == content_length {
        BodyRead::Complete
    } else {
        BodyRead::More { read: body_read + n }
    }
}

/// The response a complete body calls for: a bad request for the path, in
/// the client's format, where the body's `content_length` bytes are not
/// UTF-8; none where the request goes on to be routed.
pub fn body_response(
    body: &[u8],
    content_length: usize,
    format: Option<ContentType>,
    path: &str,
) -> (r: Option<Response>)
    requires
        content_length <= body@.len(),
    ensures
        match r {
            Some(x) => !vstd::utf8::valid_utf8(body@.subrange(0, content_length as int)) && x@
                == status_response(format, Some(path@), StatusCode::BadRequest),
            None => vstd::utf8::valid_utf8(body@.subrange(0, content_length as int)),
        },
{
    if is_utf8(&body[0..content_length]) {
        None
    } else {
        Some(Response::bad_request(format, path))
    }
}

/// The web pages under `/www`.
#[derive(Debug, Clone, Copy, PartialEq, Eq, Structural)]
pub enum WwwPage {
    Dashboard,
    Browser,
    Firmware,
    TargetUpdate,
    Rtt,
    Info,
    Settings,
}

/// The path of each page under `/www`.
pub open spec fn www_page_path(page: WwwPage) -> Seq<char> {
    match page {
        WwwPage::Dashboard => "/"@,
        WwwPage::Browser => "/browser"@,
        WwwPage::Firmware => "/firmware"@,
        WwwPage::TargetUpdate => "/target_update"@,
        WwwPage::Rtt => "/rtt"@,
        WwwPage::Info => "/info"@,
        WwwPage::Settings => "/settings"@,
    }
}

proof fn lemma_no_static_asset_at(assets: Seq<Asset>, p: Seq<char>)
    requires
        p.len() >= 2,
        p[1] != 's',
    ensures
        static_at(assets, p) is None,
    decreases assets.len(),
{
    if assets.len() > 0 {
        reveal_strlit("/static/");
        assert(asset_path(assets[0])[1] == "/static/"@[1]);
        lemma_no_static_asset_at(assets.drop_first(), p);
    }
}

/// A `GET` of each page's path under `/www` is routed to that page, and to
/// no other: `/www/` to the dashboard, `/www/browser` to the browser,
/// `/www/firmware` to the firmware page, `/www/target_update` to the
/// target update page, `/www/rtt` to the RTT page, `/www/info` to the
/// information page and `/www/settings` to the settings page.
pub proof fn lemma_www_pages_routed(page: WwwPage)
    ensures
        route_of(Method::Get, "/www"@ + www_page_path(page)) == Route::Www(page),
{
    reveal_strlit("/www");
    reveal_strlit("/");
    reveal_strlit("");
    reveal_strlit("/browser");
    reveal_strlit("/firmware");
    reveal_strlit("/target_update");
    reveal_strlit("/rtt");
    reveal_strlit("/info");
    reveal_strlit("/settings");
    reveal_strlit("/index");
    reveal_strlit("/index.htm");
    reveal_strlit("/index.html");
    reveal_strlit("/index.php");
    reveal_strlit("/default.html");
    reveal_strlit("/default.htm");
    reveal_strlit("/home");
    reveal_strlit("/home/");
    reveal_strlit("/home.html");
    reveal_strlit("/home.htm");
    reveal_strlit("/main");
    reveal_strlit("/main/");
    reveal_strlit("/main.html");
    reveal_strlit("/airfrog");
    reveal_strlit("/airfrog/");
    reveal_strlit("/favicon.ico");
    let rest = www_page_path(page);
    let p = "/www"@ + rest;
    assert(p[1] == 'w');
    assert(!is_root_alias(p));
    assert(p != "/favicon.ico"@);
    lemma_no_static_asset_at(static_assets(), p);
    assert("/www"@.is_prefix_of(p.skip(0)));
    assert(p.skip("/www"@.len() as int) =~= rest);
    assert("/browser"@[1] == 'b' && "/firmware"@[1] == 'f' && "/target_update"@[1] == 't'
        && "/rtt"@[1] == 'r' && "/info"@[1] == 'i' && "/settings"@[1] == 's');
    assert(www_page_of(rest) == Some(page));
}

/// Where a request goes.
#[derive(Debug, Clone, Copy, PartialEq, Eq, Structural)]
pub enum Route {
    /// Redirect to `/www/`.
    Redirect,
    /// Serve the favicon, closing the connection.
    Favicon,
    /// Serve a static file.
    Static(Asset),
    /// Serve a web page, uncached.
    Www(WwwPage),
    /// Pass a REST request to the target task; its own path is the request
    /// path from `offset` on.
    Api { rest: Rest, offset: usize },
    /// Read or write the network settings; the rest of the path from
    /// `offset` on.
    ConfigNet { offset: usize },
    /// Reboot request; the rest of the path from `offset` on.
    Reboot { offset: usize },
    /// RTT request; the rest of the path from `offset` on.
    Rtt { offset: usize },
    /// An unknown API path: answer not found, in JSON.
    ApiNotFound,
    /// An unknown path: answer not found.
    NotFound,
}

/// Paths that lead to the dashboard.
pub open spec fn is_root_alias(p: Seq<char>) -> bool {
    ||| p == "/"@
    ||| p == "/index"@
    ||| p == "/index.htm"@
    ||| p == "/index.html"@
    ||| p == "/index.php"@
    ||| p == "/default.html"@
    ||| p == "/default.htm"@
    ||| p == "/home"@
    ||| p == "/home/"@
    ||| p == "/home.html"@
    ||| p == "/home.htm"@
    ||| p == "/main"@
    ||| p == "/main/"@
    ||| p == "/main.html"@
    ||| p == "/airfrog"@
    ||| p == "/airfrog/"@
}

/// The first of `assets` served at `p`.
pub open spec fn static_at(assets: Seq<Asset>, p: Seq<char>) -> Option<Asset>
    decreases assets.len(),
{
    if assets.len() == 0 {
        None
    } else if asset_path(assets[0]) == p {
        Some(assets[0])
    } else {
        static_at(assets.drop_first(), p)
    }
}

/// The page a path under `/www` names, for a `GET`.
pub open spec fn www_page_of(rest: Seq<char>) -> Option<WwwPage> {
    if rest == "/"@ || rest == ""@ {
        Some(WwwPage::Dashboard)
    } else if rest == "/browser"@ {
        Some(WwwPage::Browser)
    } else if rest == "/firmware"@ {
        Some(WwwPage::Firmware)
    } else if rest == "/target_update"@ {
        Some(WwwPage::TargetUpdate)
    } else if rest == "/rtt"@ {
        Some(WwwPage::Rtt)
    } else if rest == "/info"@ {
        Some(WwwPage::Info)
    } else if rest == "/settings"@ {
        Some(WwwPage::Settings)
    } else {
        None
    }
}

/// Where the API part of a path (after `/api`, at `a`) goes.
pub open spec fn api_route_of(p: Seq<char>, a: int) -> Route {
    if has_prefix_at(p, a, "/target"@) {
        Route::Api { rest: Rest::Target, offset: (a + "/target"@.len()) as usize }
    } else if has_prefix_at(p, a, "/raw"@) {
        Route::Api { rest: Rest::Raw, offset: (a + "/raw"@.len()) as usize }
    } else if has_prefix_at(p, a, "/config/swd"@) {
        Route::Api { rest: Rest::SwdConfig, offset: (a + "/config/swd"@.len()) as usize }
    } else if has_prefix_at(p, a, "/config/net"@) {
        Route::ConfigNet { offset: (a + "/config/net"@.len()) as usize }
    } else if has_prefix_at(p, a, "/reboot"@) {
        Route::Reboot { offset: (a + "/reboot"@.len()) as usize }
    } else if has_prefix_at(p, a, "/rtt"@) {
        Route::Rtt { offset: (a + "/rtt"@.len()) as usize }
    } else {
        Route::ApiNotFound
    }
}

/// Where a request goes: dashboard aliases redirect to `/www/`; the
/// favicon and the static files are served; under `/www` a `GET` of a known
/// page serves it and anything else redirects to `/www/`; under `/api` the
/// target, raw and SWD configuration requests go to the target task and
/// network configuration, reboot and RTT requests to their handlers, and
/// anything else there is not found; any other path is not found.
pub open spec fn route_of(method: Method, p: Seq<char>) -> Route {
    if is_root_alias(p) {
        Route::Redirect
    } else if p == "/favicon.ico"@ {
        Route::Favicon
    } else if static_at(static_assets(), p) is Some {
        Route::Static(static_at(static_assets(), p)->0)
    } else if has_prefix_at(p, 0, "/www"@) {
        match (method, www_page_of(p.skip("/www"@.len() as int))) {
            (Method::Get, Some(page)) => Route::Www(page),
            _ => Route::Redirect,
        }
    } else if has_prefix_at(p, 0, "/api"@) {
        api_route_of(p, "/api"@.len() as int)
    } else {
        Route::NotFound
    }
}

fn is_root_alias_exec(v: &Vec<char>) -> (r: bool)
    ensures
        r == is_root_alias(v@),
{
    assert(v@.skip(0) =~= v@);
    rest_is(v, 0, "/") || rest_is(v, 0, "/index") || rest_is(v, 0, "/index.htm") || rest_is(
        v,
        0,
        "/index.html",
    ) || rest_is(v, 0, "/index.php") || rest_is(v, 0, "/default.html") || rest_is(
        v,
        0,
        "/default.htm",
    ) || rest_is(v, 0, "/home") || rest_is(v, 0, "/home/") || rest_is(v, 0, "/home.html")
        || rest_is(v, 0, "/home.htm") || rest_is(v, 0, "/main") || rest_is(v, 0, "/main/")
        || rest_is(v, 0, "/main.html") || rest_is(v, 0, "/airfrog") || rest_is(v, 0, "/airfrog/")
}

fn www_page_exec(v: &Vec<char>, start: usize) -> (r: Option<WwwPage>)
    requires
        start <= v@.len(),
    ensures
        r == www_page_of(v@.skip(start as int)),
{
    if rest_is(v, start, "/") || rest_is(v, start, "") {
        Some(WwwPage::Dashboard)
    } else if rest_is(v, start, "/browser") {
        Some(WwwPage::Browser)
    } else if rest_is(v, start, "/firmware") {
        Some(WwwPage::Firmware)
    } else if rest_is(v, start, "/target_update") {
        Some(WwwPage::TargetUpdate)
    } else if rest_is(v, start, "/rtt") {
        Some(WwwPage::Rtt)
    } else if rest_is(v, start, "/info") {
        Some(WwwPage::Info)
    } else if rest_is(v, start, "/settings") {
        Some(WwwPage::Settings)
    } else {
        None
    }
}

fn after_prefix(v: &Vec<char>, start: usize, p: &str) -> (r: Option<usize>)
    ensures
        match r {
            Some(o) => has_prefix_at(v@, start as int, p@) && o == start + p@.len(),
            None => !has_prefix_at(v@, start as int, p@),
        },
{
    if prefix_at(v, start, p) {
        let n = chars_of(p).len();
        let total = v.len();
        assert(start + n <= total);
        Some(start + n)
    } else {
        None
    }
}

fn api_route_exec(v: &Vec<char>, a: usize) -> (r: Route)
    ensures
        r == api_route_of(v@, a as int),
{
    if let Some(o) = after_prefix(v, a, "/target") {
        Route::Api { rest: Rest::Target, offset: o }
    } else if let Some(o) = after_prefix(v, a, "/raw") {
        Route::Api { rest: Rest::Raw, offset: o }
    } else if let Some(o) = after_prefix(v, a, "/config/swd") {
        Route::Api { rest: Rest::SwdConfig, offset: o }
    } else if let Some(o) = after_prefix(v, a, "/config/net") {
        Route::ConfigNet { offset: o }
    } else if let Some(o) = after_prefix(v, a, "/reboot") {
        Route::Reboot { offset: o }
    } else if let Some(o) = after_prefix(v, a, "/rtt") {
        Route::Rtt { offset: o }
    } else {
        Route::ApiNotFound
    }
}

fn static_exec(v: &Vec<char>) -> (r: Option<Asset>)
    ensures
        r == static_at(static_assets(), v@),
{
    let assets = static_asset_list();
    let mut i: usize = 0;
    assert(assets@.skip(0) =~= assets@);
    assert(v@.skip(0) =~= v@);
    while i < assets.len()
        invariant
            assets@ == static_assets(),
            i <= assets@.len(),
            v@.skip(0) == v@,
            static_at(static_assets(), v@) == static_at(assets@.skip(i as int), v@),
        decreases assets@.len() - i,
    {
        let a = assets[i];
        let path = a.path();
        assert(assets@.skip(i as int)[0] == a);
        if rest_is(v, 0, path.as_str()) {
            return Some(a);
        }
        assert(assets@.skip(i as int).drop_first() =~= assets@.skip(i + 1));
        i = i + 1;
    }
    None
}

/// Decides where a request goes (see [`route_of`]).
pub fn route(method: Method, path: &str) -> (r: Route)
    ensures
        r == route_of(method, path@),
{
    let v = chars_of(path);
    assert(v@.skip(0) =~= v@);
    if is_root_alias_exec(&v) {
        return Route::Redirect;
    }
    if rest_is(&v, 0, "/favicon.ico") {
        return Route::Favicon;
    }
    if let Some(a) = static_exec(&v) {
        return Route::Static(a);
    }
    if let Some(w) = after_prefix(&v, 0, "/www") {
        return match (method, www_page_exec(&v, w)) {
            (Method::Get, Some(page)) => Route::Www(page),
            _ => Route::Redirect,
        };
    }
    if let Some(a) = after_prefix(&v, 0, "/api") {
        return api_route_exec(&v, a);
    }
    Route::NotFound
}


/// Whether an RTT API request reads the RTT data: a `GET` of `/data`.
pub fn rtt_data_requested(method: Method, raw_path: &str) -> (r: bool)
    ensures
        r == (method == Method::Get && raw_path@ == "/data"@),
{
    let v = chars_of(raw_path);
    assert(v@.skip(0) =~= v@);
    method == Method::Get && rest_is(&v, 0, "/data")
}

/// Each byte as `0x` and two upper-case hex digits.
pub fn rtt_hex_bytes(data: &[u8]) -> (r: Vec<String>)
    ensures
        r@.len() == data@.len(),
        forall|i: int| 0 <= i < data@.len() ==> #[trigger] r@[i]@ == "0x"@ + hex_upper(data@[i] as nat, 2),
{
    let mut v: Vec<String> = Vec::new();
    let mut i: usize = 0;
    while i < data.len()
        invariant
            i <= data@.len(),
            v@.len() == i,
            forall|j: int| 0 <= j < i ==> #[trigger] v@[j]@ == "0x"@ + hex_upper(data@[j] as nat, 2),
        decreases data@.len() - i,
    {
        let mut s = string_of("0x");
        append_hex(&mut s, data[i] as u64, 2);
        v.push(s);
        i = i + 1;
    }
    v
}

/// Whether a reboot request asks for a reboot: a `POST` of the bare path.
pub fn reboot_requested(method: Method, raw_path: &str) -> (r: bool)
    ensures
        r == (method == Method::Post && raw_path@.len() == 0),
{
    raw_path.is_empty() && method == Method::Post
}

/// The answer to a reboot request that reboots: an empty JSON object,
/// closing the connection.
pub fn reboot_response(path: &str) -> (r: Response)
    ensures
        r@ == (ResponseView {
            path: Some(path@),
            status_code: StatusCode::Success,
            content: Some(ContentView::Owned("{}"@)),
            content_type: Some(ContentType::Json),
            headers: Some(seq![("Connection"@, "close"@)]),
        }),
{
    let mut r = Response::json_already(path, string_of("{}"), StatusCode::Success);
    let mut headers: Vec<Header> = Vec::new();
    headers.push(Header { name: "Connection", value: "close" });
    assert(crate::http::headers_view(headers@) =~= seq![("Connection"@, "close"@)]);
    r.headers = Some(headers);
    r
}

/// The answer for the favicon: the PNG, closing the connection.
pub fn favicon_response(path: &str, content: &'static [u8]) -> (r: Response)
    ensures
        r@ == (ResponseView {
            path: Some(path@),
            status_code: StatusCode::Success,
            content: Some(ContentView::Borrowed(content@)),
            content_type: Some(ContentType::Png),
            headers: Some(seq![("Connection"@, "close"@)]),
        }),
{
    let mut headers: Vec<Header> = Vec::new();
    headers.push(Header { name: "Connection", value: "close" });
    assert(crate::http::headers_view(headers@) =~= seq![("Connection"@, "close"@)]);
    Response {
        path: Some(string_of(path)),
        status_code: StatusCode::Success,
        content_type: Some(ContentType::Png),
        content: Some(ResponseContent::Borrowed(content)),
        headers: Some(headers),
    }
}


/// Every static file is served at its own path, whatever the method.
pub proof fn lemma_static_files_routed(m: Method, a: Asset)
    requires
        static_assets().contains(a),
    ensures
        route_of(m, asset_path(a)) == Route::Static(a),
{
    reveal_strlit("/");
    reveal_strlit("/index");
    reveal_strlit("/index.htm");
    reveal_strlit("/index.html");
    reveal_strlit("/index.php");
    reveal_strlit("/default.html");
    reveal_strlit("/default.htm");
    reveal_strlit("/home");
    reveal_strlit("/home/");
    reveal_strlit("/home.html");
    reveal_strlit("/home.htm");
    reveal_strlit("/main");
    reveal_strlit("/main/");
    reveal_strlit("/main.html");
    reveal_strlit("/airfrog");
    reveal_strlit("/airfrog/");
    reveal_strlit("/favicon.ico");
    reveal_strlit("/static/");
    reveal_strlit(".");
    reveal_strlit("-");
    reveal_strlit("0.1.0");
    reveal_strlit("favicon-32x32");
    reveal_strlit("a");
    reveal_strlit("png");
    reveal_strlit("airfrog_dark_bg_300");
    reveal_strlit("d");
    reveal_strlit("style");
    reveal_strlit("af");
    reveal_strlit("css");
    reveal_strlit("browser");
    reveal_strlit("t");
    reveal_strlit("html");
    reveal_strlit("config_update");
    reveal_strlit("i");
    reveal_strlit("js");
    reveal_strlit("memory");
    reveal_strlit("u");
    reveal_strlit("v");
    reveal_strlit("footer");
    reveal_strlit("c");
    reveal_strlit("rtt");
    reveal_strlit("h");
    reveal_with_fuel(static_at, 11);
    let p = asset_path(a);
    assert(p.len() >= 17);
    assert(!is_root_alias(p));
    assert(p != "/favicon.ico"@);
    assert(asset_path(Asset::Css)[8] == 's');
    assert(asset_path(Asset::MemoryCss)[8] == 'm');
    assert(static_at(static_assets(), p) == Some(a));
}

} // verus!
