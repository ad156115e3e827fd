//! The web server's vocabulary: methods, content types, status codes and
//! responses, with the text a response is framed in on the wire.

pub mod assets;
pub mod html;
pub mod server;

use crate::error::{error_status, AirfrogError};
use crate::fmt::{append_dec, chars_of, dec, push_str, rest_is, string_of};
use vstd::prelude::*;

verus! {

/// Largest request head the server reads, in bytes.
pub const HTTPD_HEADER_BUF_SIZE: usize = 2048;

/// Largest request body the server reads, in bytes.
pub const HTTPD_BODY_BUF_SIZE: usize = 4096;

/// Most request header lines parsed.
pub const HTTPD_MAX_HEADERS: usize = 32;

/// Supported HTTP methods.
#[derive(Debug, Clone, Copy, PartialEq, Eq, Structural)]
pub enum Method {
    Get,
    Post,
}

/// The method a request line names, if it is one airfrog serves.
pub open spec fn method_of(s: Seq<char>) -> Option<Method> {
    if s == "GET"@ {
        Some(Method::Get)
    } else if s == "POST"@ {
        Some(Method::Post)
    } else {
        None
    }
}

/// A method as displayed.
pub open spec fn method_text(m: Method) -> Seq<char> {
    match m {
        Method::Get => "GET"@,
        Method::Post => "POST"@,
    }
}

impl Method {
    /// Reads a method name: `GET` or `POST`, exactly.
    pub fn from_str(method: &str) -> (r: Option<Method>)
        ensures
            r == method_of(method@),
    {
        let v = chars_of(method);
        assert(v@.skip(0) =~= v@);
        if rest_is(&v, 0, "GET") {
            Some(Method::Get)
        } else if rest_is(&v, 0, "POST") {
            Some(Method::Post)
        } else {
            None
        }
    }

    /// The method as displayed.
    pub fn as_str(&self) -> (r: &'static str)
        ensures
            r@ == method_text(*self),
    {
        match self {
            Method::Get => "GET",
            Method::Post => "POST",
        }
    }
}

/// Kinds of REST API request passed on to the target task.
#[derive(Debug, Clone, Copy, PartialEq, Eq, Structural)]
pub enum Rest {
    Target,
    Raw,
    SwdConfig,
}

/// Content types of responses.
#[derive(Debug, Clone, Copy, PartialEq, Eq, Structural)]
pub enum ContentType {
    Html,
    Json,
    _Text,
    JavaScript,
    Css,
    Png,
}

/// The MIME type of a content type.
pub open spec fn content_type_text(c: ContentType) -> Seq<char> {
    match c {
        ContentType::Html => "text/html"@,
        ContentType::Json => "application/json"@,
        ContentType::_Text => "text/plain"@,
        ContentType::JavaScript => "application/javascript"@,
        ContentType::Css => "text/css"@,
        ContentType::Png => "image/png"@,
    }
}

impl ContentType {
    pub const HTML: &'static str = "text/html";
    pub const JSON: &'static str = "application/json";
    pub const TEXT: &'static str = "text/plain";
    pub const JAVASCRIPT: &'static str = "application/javascript";
    pub const CSS: &'static str = "text/css";
    pub const PNG: &'static str = "image/png";

    /// The MIME type.
    pub fn as_str(&self) -> (r: &'static str)
        ensures
            r@ == content_type_text(*self),
    {
        match self {
            ContentType::Html => Self::HTML,
            ContentType::Json => Self::JSON,
            ContentType::_Text => Self::TEXT,
            ContentType::JavaScript => Self::JAVASCRIPT,
            ContentType::Css => Self::CSS,
            ContentType::Png => Self::PNG,
        }
    }
}

/// HTTP status codes airfrog answers with.
#[derive(Debug, Clone, Copy, PartialEq, Eq, Structural)]
pub enum StatusCode {
    Success,
    Found,
    BadRequest,
    NotFound,
    _InvalidMethod,
    Timeout,
    TooLarge,
    InternalServerError,
    ServiceUnavailable,
}

/// The number of a status code.
pub open spec fn status_number(s: StatusCode) -> u16 {
    match s {
        StatusCode::Success => 200,
        StatusCode::Found => 302,
        StatusCode::BadRequest => 400,
        StatusCode::NotFound => 404,
        StatusCode::_InvalidMethod => 405,
        StatusCode::Timeout => 408,
        StatusCode::TooLarge => 413,
        StatusCode::InternalServerError => 500,
        StatusCode::ServiceUnavailable => 503,
    }
}

/// The status code with number `code`; any number airfrog does not answer
/// with is an internal server error.
pub open spec fn status_of(code: u16) -> StatusCode {
    if code == 200 {
        StatusCode::Success
    } else if code == 302 {
        StatusCode::Found
    } else if code == 400 {
        StatusCode::BadRequest
    } else if code == 404 {
        StatusCode::NotFound
    } else if code == 405 {
        StatusCode::_InvalidMethod
    } else if code == 408 {
        StatusCode::Timeout
    } else if code == 413 {
        StatusCode::TooLarge
    } else if code == 503 {
        StatusCode::ServiceUnavailable
    } else {
        StatusCode::InternalServerError
    }
}

/// A status line's code and reason phrase.
pub open spec fn status_text(s: StatusCode) -> Seq<char> {
    match s {
        StatusCode::Success => "200 OK"@,
        StatusCode::Found => "302 Found"@,
        StatusCode::BadRequest => "400 Bad Request"@,
        StatusCode::NotFound => "404 Not Found"@,
        StatusCode::_InvalidMethod => "405 Method Not Allowed"@,
        StatusCode::Timeout => "408 Request Timeout"@,
        StatusCode::TooLarge => "413 Payload Too Large"@,
        StatusCode::ServiceUnavailable => "503 Service Unavailable"@,
        StatusCode::InternalServerError => "500 Internal Server Error"@,
    }
}

impl StatusCode {
    /// The status code's number.
    pub fn code(&self) -> (r: u16)
        ensures
            r == status_number(*self),
    {
        match self {
            StatusCode::Success => 200,
            StatusCode::Found => 302,
            StatusCode::BadRequest => 400,
            StatusCode::NotFound => 404,
            StatusCode::_InvalidMethod => 405,
            StatusCode::Timeout => 408,
            StatusCode::TooLarge => 413,
            StatusCode::InternalServerError => 500,
            StatusCode::ServiceUnavailable => 503,
        }
    }

    /// The code and reason phrase, as in a status line.
    pub fn as_str(&self) -> (r: &'static str)
        ensures
            r@ == status_text(*self),
    {
        match self {
            StatusCode::Success => "200 OK",
            StatusCode::Found => "302 Found",
            StatusCode::BadRequest => "400 Bad Request",
            StatusCode::NotFound => "404 Not Found",
            StatusCode::_InvalidMethod => "405 Method Not Allowed",
            StatusCode::Timeout => "408 Request Timeout",
            StatusCode::TooLarge => "413 Payload Too Large",
            StatusCode::ServiceUnavailable => "503 Service Unavailable",
            StatusCode::InternalServerError => "500 Internal Server Error",
        }
    }

    /// The status code with number `code` (see [`status_of`]).
    pub fn from_u16(code: u16) -> (r: Self)
        ensures
            r == status_of(code),
    {
        match code {
            200 => StatusCode::Success,
            302 => StatusCode::Found,
            400 => StatusCode::BadRequest,
            404 => StatusCode::NotFound,
            405 => StatusCode::_InvalidMethod,
            408 => StatusCode::Timeout,
            413 => StatusCode::TooLarge,
            500 => StatusCode::InternalServerError,
            503 => StatusCode::ServiceUnavailable,
            _ => StatusCode::InternalServerError,
        }
    }
}

impl From<AirfrogError> for StatusCode {
    fn from(error: AirfrogError) -> (r: Self) {
        Self::from_u16(error.status_code())
    }
}

impl vstd::std_specs::convert::FromSpecImpl<AirfrogError> for StatusCode {
    open spec fn obeys_from_spec() -> bool {
        true
    }

    open spec fn from_spec(e: AirfrogError) -> StatusCode {
        status_of(error_status(e))
    }
}

/// Every code in [`StatusCode`] reads back as itself.
pub proof fn lemma_status_roundtrip(s: StatusCode)
    ensures
        status_of(status_number(s)) == s,
{
}

/// The reason phrase of a status code.
pub open spec fn reason_phrase(s: StatusCode) -> Seq<char> {
    match s {
        StatusCode::Success => "OK"@,
        StatusCode::Found => "Found"@,
        StatusCode::BadRequest => "Bad Request"@,
        StatusCode::NotFound => "Not Found"@,
        StatusCode::_InvalidMethod => "Method Not Allowed"@,
        StatusCode::Timeout => "Request Timeout"@,
        StatusCode::TooLarge => "Payload Too Large"@,
        StatusCode::InternalServerError => "Internal Server Error"@,
        StatusCode::ServiceUnavailable => "Service Unavailable"@,
    }
}

/// Every status text is the status code's number in decimal, a space,
/// and the reason phrase: it begins with its number and a space.
pub proof fn lemma_status_text_starts_with_number(s: StatusCode)
    ensures
        status_text(s) == dec(status_number(s) as nat) + " "@ + reason_phrase(s),
{
    reveal_strlit(" ");
    match s {
        StatusCode::Success => {
            reveal_strlit("200 OK");
            reveal_strlit("OK");
            assert(dec(200) =~= seq!['2', '0', '0']) by {
                reveal_with_fuel(crate::fmt::digits, 4);
            }
            assert(status_text(s) =~= dec(status_number(s) as nat) + " "@ + reason_phrase(s));
        },
        StatusCode::Found => {
            reveal_strlit("302 Found");
            reveal_strlit("Found");
            assert(dec(302) =~= seq!['3', '0', '2']) by {
                reveal_with_fuel(crate::fmt::digits, 4);
            }
            assert(status_text(s) =~= dec(status_number(s) as nat) + " "@ + reason_phrase(s));
        },
        StatusCode::BadRequest => {
            reveal_strlit("400 Bad Request");
            reveal_strlit("Bad Request");
            assert(dec(400) =~= seq!['4', '0', '0']) by {
                reveal_with_fuel(crate::fmt::digits, 4);
            }
            assert(status_text(s) =~= dec(status_number(s) as nat) + " "@ + reason_phrase(s));
        },
        StatusCode::NotFound => {
            reveal_strlit("404 Not Found");
            reveal_strlit("Not Found");
            assert(dec(404) =~= seq!['4', '0', '4']) by {
                reveal_with_fuel(crate::fmt::digits, 4);
            }
            assert(status_text(s) =~= dec(status_number(s) as nat) + " "@ + reason_phrase(s));
        },
        StatusCode::_InvalidMethod => {
            reveal_strlit("405 Method Not Allowed");
            reveal_strlit("Method Not Allowed");
            assert(dec(405) =~= seq!['4', '0', '5']) by {
                reveal_with_fuel(crate::fmt::digits, 4);
            }
            assert(status_text(s) =~= dec(status_number(s) as nat) + " "@ + reason_phrase(s));
        },
        StatusCode::Timeout => {
            reveal_strlit("408 Request Timeout");
            reveal_strlit("Request Timeout");
            assert(dec(408) =~= seq!['4', '0', '8']) by {
                reveal_with_fuel(crate::fmt::digits, 4);
            }
            assert(status_text(s) =~= dec(status_number(s) as nat) + " "@ + reason_phrase(s));
        },
        StatusCode::TooLarge => {
            reveal_strlit("413 Payload Too Large");
            reveal_strlit("Payload Too Large");
            assert(dec(413) =~= seq!['4', '1', '3']) by {
                reveal_with_fuel(crate::fmt::digits, 4);
            }
            assert(status_text(s) =~= dec(status_number(s) as nat) + " "@ + reason_phrase(s));
        },
        StatusCode::InternalServerError => {
            reveal_strlit("500 Internal Server Error");
            reveal_strlit("Internal Server Error");
            assert(dec(500) =~= seq!['5', '0', '0']) by {
                reveal_with_fuel(crate::fmt::digits, 4);
            }
            assert(status_text(s) =~= dec(status_number(s) as nat) + " "@ + reason_phrase(s));
        },
        StatusCode::ServiceUnavailable => {
            reveal_strlit("503 Service Unavailable");
            reveal_strlit("Service Unavailable");
            assert(dec(503) =~= seq!['5', '0', '3']) by {
                reveal_with_fuel(crate::fmt::digits, 4);
            }
            assert(status_text(s) =~= dec(status_number(s) as nat) + " "@ + reason_phrase(s));
        },
    }
}

/// A response header line.
#[derive(Debug, Clone, Copy)]
pub struct Header {
    pub name: &'static str,
    pub value: &'static str,
}

impl View for Header {
    type V = (Seq<char>, Seq<char>);

    open spec fn view(&self) -> (Seq<char>, Seq<char>) {
        (self.name@, self.value@)
    }
}

/// A file served from flash, with its URL path.
#[derive(Debug)]
pub struct StaticFile {
    pub path: &'static str,
    pub content_type: ContentType,
    pub content: &'static [u8],
    pub headers: &'static [Header],
}

/// A response body: text built at run time, or bytes held in flash.
#[derive(Debug, Clone)]
pub enum ResponseContent {
    Owned(String),
    Borrowed(&'static [u8]),
}

/// A response body, as text or bytes.
pub ghost enum ContentView {
    Owned(Seq<char>),
    Borrowed(Seq<u8>),
}

impl View for ResponseContent {
    type V = ContentView;

    open spec fn view(&self) -> ContentView {
        match self {
            ResponseContent::Owned(s) => ContentView::Owned(s@),
            ResponseContent::Borrowed(b) => ContentView::Borrowed(b@),
        }
    }
}

/// A response, as values.
pub ghost struct ResponseView {
    pub path: Option<Seq<char>>,
    pub status_code: StatusCode,
    pub content: Option<ContentView>,
    pub content_type: Option<ContentType>,
    pub headers: Option<Seq<(Seq<char>, Seq<char>)>>,
}

/// An HTTP response.
#[derive(Debug, Clone)]
pub struct Response {
    pub path: Option<String>,
    pub status_code: StatusCode,
    pub content: Option<ResponseContent>,
    pub content_type: Option<ContentType>,
    pub headers: Option<Vec<Header>>,
}

/// Header lines, as values.
pub open spec fn headers_view(h: Seq<Header>) -> Seq<(Seq<char>, Seq<char>)> {
    h.map_values(|x: Header| x@)
}

impl View for Response {
    type V = ResponseView;

    open spec fn view(&self) -> ResponseView {
        ResponseView {
            path: match self.path {
                Some(p) => Some(p@),
                None => None,
            },
            status_code: self.status_code,
            content: match self.content {
                Some(c) => Some(c@),
                None => None,
            },
            content_type: self.content_type,
            headers: match self.headers {
                Some(h) => Some(headers_view(h@)),
                None => None,
            },
        }
    }
}

/// The view of an optional path.
pub open spec fn opt_path(p: Option<&str>) -> Option<Seq<char>> {
    match p {
        Some(s) => Some(s@),
        None => None,
    }
}

/// A response with a status code and nothing else.
pub open spec fn bare(path: Option<Seq<char>>, status: StatusCode) -> ResponseView {
    ResponseView { path, status_code: status, content: None, content_type: None, headers: None }
}

/// A response with a body of a content type, and no extra headers.
pub open spec fn with_body(path: Seq<char>, status: StatusCode, body: Seq<char>, ct: ContentType) -> ResponseView {
    ResponseView {
        path: Some(path),
        status_code: status,
        content: Some(ContentView::Owned(body)),
        content_type: Some(ct),
        headers: None,
    }
}

/// The headers that forbid caching.
pub open spec fn no_cache_headers() -> Seq<(Seq<char>, Seq<char>)> {
    seq![
        ("Cache-Control"@, "no-cache, no-store, must-revalidate"@),
        ("Pragma"@, "no-cache"@),
        ("Expires"@, "0"@),
    ]
}

/// What [`Response::status_code`] answers: for a JSON client an empty
/// JSON object; for an HTML client the timeout, not-found and bad-request
/// pages where the status is one of those; otherwise the bare status.
pub open spec fn status_response(
    format: Option<ContentType>,
    path: Option<Seq<char>>,
    status: StatusCode,
) -> ResponseView {
    let p = match path {
        Some(p) => p,
        None => Seq::empty(),
    };
    match format {
        Some(ContentType::Json) => with_body(p, status, "{}"@, ContentType::Json),
        Some(ContentType::Html) => match status {
            StatusCode::Timeout => with_body(p, status, html::page(html::timeout_body()), ContentType::Html),
            StatusCode::NotFound => with_body(p, status, html::page(html::not_found_body()), ContentType::Html),
            StatusCode::BadRequest => with_body(p, status, html::page(html::bad_request_body()), ContentType::Html),
            _ => bare(path, status),
        },
        _ => bare(path, status),
    }
}

fn owned_path(path: Option<&str>) -> (r: Option<String>)
    ensures
        match r {
            Some(s) => path matches Some(p) && s@ == p@,
            None => path is None,
        },
{
    match path {
        Some(p) => Some(string_of(p)),
        None => None,
    }
}

fn path_or_empty(path: Option<&str>) -> (r: &str)
    ensures
        r@ == match path {
            Some(p) => p@,
            None => Seq::<char>::empty(),
        },
{
    match path {
        Some(p) => p,
        None => {
            proof {
                reveal_strlit("");
            }
            ""
        },
    }
}

impl Response {
    /// A `200 OK` response with a body.
    pub fn ok(path: &str, body: String, content_type: ContentType) -> (r: Self)
        ensures
            r@ == with_body(path@, StatusCode::Success, body@, content_type),
    {
        Response {
            path: Some(string_of(path)),
            status_code: StatusCode::Success,
            content: Some(ResponseContent::Owned(body)),
            content_type: Some(content_type),
            headers: None,
        }
    }

    /// A `404 Not Found` response in the client's format.
    pub fn not_found(response_format: Option<ContentType>, path: &str) -> (r: Self)
        ensures
            r@ == status_response(response_format, Some(path@), StatusCode::NotFound),
    {
        Self::status_code(response_format, Some(path), StatusCode::NotFound)
    }

    /// A `400 Bad Request` response in the client's format.
    pub fn bad_request(response_format: Option<ContentType>, path: &str) -> (r: Self)
        ensures
            r@ == status_response(response_format, Some(path@), StatusCode::BadRequest),
    {
        Self::status_code(response_format, Some(path), StatusCode::BadRequest)
    }

    /// A `413 Payload Too Large` response in the client's format.
    pub fn too_large(response_format: Option<ContentType>, path: &str) -> (r: Self)
        ensures
            r@ == status_response(response_format, Some(path@), StatusCode::TooLarge),
    {
        Self::status_code(response_format, Some(path), StatusCode::TooLarge)
    }

    /// A `302 Found` redirect to `url`.
    pub fn redirect(path: &str, url: &'static str) -> (r: Self)
        ensures
            r@ == (ResponseView {
                path: Some(path@),
                status_code: StatusCode::Found,
                content: None,
                content_type: None,
                headers: Some(seq![("Location"@, url@)]),
            }),
    {
        let header = Header { name: "Location", value: url };
        let mut headers: Vec<Header> = Vec::new();
        headers.push(header);
        let r = Response {
            path: Some(string_of(path)),
            status_code: StatusCode::Found,
            content: None,
            content_type: None,
            headers: Some(headers),
        };
        assert(headers_view(headers@) =~= seq![("Location"@, url@)]);
        r
    }

    /// A response with `status_code`, shaped for the client's format (see
    /// [`status_response`]).
    pub fn status_code(
        response_format: Option<ContentType>,
        path: Option<&str>,
        status_code: StatusCode,
    ) -> (r: Response)
        ensures
            r@ == status_response(response_format, opt_path(path), status_code),
    {
        match response_format {
            Some(ContentType::Json) => Self::json_already(
                path_or_empty(path),
                string_of("{}"),
                status_code,
            ),
            Some(ContentType::Html) => match status_code {
                StatusCode::Timeout => Self::html(path_or_empty(path), html::html_timeout(), status_code),
                StatusCode::NotFound => Self::html(path_or_empty(path), html::html_not_found(), status_code),
                StatusCode::BadRequest => Self::html(path_or_empty(path), html::html_bad_request(), status_code),
                _ => Self::status_code_default(path, status_code),
            },
            _ => Self::status_code_default(path, status_code),
        }
    }

    /// A response with a status code and nothing else.
    pub fn status_code_default(path: Option<&str>, status_code: StatusCode) -> (r: Response)
        ensures
            r@ == bare(opt_path(path), status_code),
    {
        Response {
            path: owned_path(path),
            status_code,
            content: None,
            content_type: None,
            headers: None,
        }
    }

    /// A response for an error: its status code, in the client's format; a
    /// JSON client gets `error_json`, the serialized error, as the body.
    pub fn error(
        request_format: Option<ContentType>,
        path: &str,
        error: AirfrogError,
        error_json: String,
    ) -> (r: Self)
        ensures
            request_format == Some(ContentType::Json) ==> r@ == with_body(
                path@,
                status_of(error_status(error)),
                error_json@,
                ContentType::Json,
            ),
            request_format != Some(ContentType::Json) ==> r@ == status_response(
                request_format,
                Some(path@),
                status_of(error_status(error)),
            ),
    {
        let status = StatusCode::from_u16(error.status_code());
        let response = Self::status_code(request_format, Some(path), status);
        match request_format {
            Some(ContentType::Json) => response.with_content(
                ContentType::Json,
                ResponseContent::Owned(error_json),
            ),
            _ => response,
        }
    }

    /// A JSON response with an already serialized body.
    pub fn json_already(path: &str, content: String, status_code: StatusCode) -> (r: Self)
        ensures
            r@ == with_body(path@, status_code, content@, ContentType::Json),
    {
        Response {
            path: Some(string_of(path)),
            status_code,
            content: Some(ResponseContent::Owned(content)),
            content_type: Some(ContentType::Json),
            headers: None,
        }
    }

    /// An HTML response.
    pub fn html(path: &str, content: html::HtmlContent, status_code: StatusCode) -> (r: Self)
        ensures
            r@ == with_body(path@, status_code, content.0@, ContentType::Html),
    {
        Response {
            path: Some(string_of(path)),
            status_code,
            content: Some(ResponseContent::Owned(content.0)),
            content_type: Some(ContentType::Html),
            headers: None,
        }
    }

    /// A `200 OK` HTML response.
    pub fn html_ok(path: &str, content: html::HtmlContent) -> (r: Self)
        ensures
            r@ == with_body(path@, StatusCode::Success, content.0@, ContentType::Html),
    {
        Self::html(path, content, StatusCode::Success)
    }

    /// The response with the headers that forbid caching added after any it
    /// has.
    pub fn no_cache(self) -> (r: Self)
        ensures
            r@ == (ResponseView {
                headers: Some(
                    match self@.headers {
                        Some(h) => h + no_cache_headers(),
                        None => no_cache_headers(),
                    },
                ),
                ..self@
            }),
    {
        let mut new_headers: Vec<Header> = Vec::new();
        new_headers.push(Header { name: "Cache-Control", value: "no-cache, no-store, must-revalidate" });
        new_headers.push(Header { name: "Pragma", value: "no-cache" });
        new_headers.push(Header { name: "Expires", value: "0" });
        assert(headers_view(new_headers@) =~= no_cache_headers());
        let mut r = self;
        match r.headers {
            Some(existing) => {
                let mut existing = existing;
                let ghost e0 = existing@;
                existing.append(&mut new_headers);
                assert(headers_view(existing@) =~= headers_view(e0) + no_cache_headers());
                r.headers = Some(existing);
            },
            None => {
                r.headers = Some(new_headers);
            },
        }
        r
    }

    /// A `200 OK` response serving a static file, with the file's headers
    /// where it has any.
    pub fn static_file(path: &str, file: StaticFile) -> (r: Self)
        ensures
            r@ == (ResponseView {
                path: Some(path@),
                status_code: StatusCode::Success,
                content: Some(ContentView::Borrowed(file.content@)),
                content_type: Some(file.content_type),
                headers: if file.headers@.len() == 0 {
                    None
                } else {
                    Some(headers_view(file.headers@))
                },
            }),
    {
        let headers = if file.headers.len() != 0 {
            let mut v: Vec<Header> = Vec::new();
            let mut i: usize = 0;
            while i < file.headers.len()
                invariant
                    i <= file.headers@.len(),
                    v@ == file.headers@.subrange(0, i as int),
                decreases file.headers@.len() - i,
            {
                let h = file.headers[i];
                v.push(Header { name: h.name, value: h.value });
                assert(v@ =~= file.headers@.subrange(0, i + 1));
                i = i + 1;
            }
            assert(v@ =~= file.headers@);
            Some(v)
        } else {
            None
        };
        Response {
            path: Some(string_of(path)),
            status_code: StatusCode::Success,
            content: Some(ResponseContent::Borrowed(file.content)),
            content_type: Some(file.content_type),
            headers,
        }
    }

    /// The response with its content type and body replaced.
    pub fn with_content(self, content_type: ContentType, content: ResponseContent) -> (r: Self)
        ensures
            r@ == (ResponseView { content_type: Some(content_type), content: Some(content@), ..self@ }),
    {
        let mut r = self;
        r.content_type = Some(content_type);
        r.content = Some(content);
        r
    }

    /// The number of body bytes.
    pub fn content_len(&self) -> (r: usize)
        ensures
            r == content_bytes_len(self@.content),
    {
        match &self.content {
            Some(ResponseContent::Owned(s)) => s.as_str().len(),
            Some(ResponseContent::Borrowed(b)) => b.len(),
            None => 0,
        }
    }

    /// The status line and header lines that come before the body, ending
    /// with the blank line.
    pub fn head_text(&self) -> (r: String)
        ensures
            r@ == head_text(self@),
    {
        let mut s = String::new();
        push_str(&mut s, "HTTP/1.1 ");
        push_str(&mut s, self.status_code.as_str());
        push_str(&mut s, "\r\nContent-Length: ");
        append_dec(&mut s, self.content_len() as u64);
        push_str(&mut s, "\r\nContent-Type: ");
        let ct = match &self.content_type {
            Some(ct) => ct.as_str(),
            None => "text/plain",
        };
        push_str(&mut s, ct);
        push_str(&mut s, "\r\n");
        let ghost fixed = s@;
        match &self.headers {
            Some(headers) => {
                let mut i: usize = 0;
                while i < headers.len()
                    invariant
                        i <= headers@.len(),
                        s@ == fixed + header_lines(headers_view(headers@).take(i as int)),
                    decreases headers@.len() - i,
                {
                    proof {
                        assert(headers_view(headers@).take(i + 1).drop_last() =~= headers_view(headers@).take(i as int));
                    }
                    push_str(&mut s, headers[i].name);
                    push_str(&mut s, ": ");
                    push_str(&mut s, headers[i].value);
                    push_str(&mut s, "\r\n");
                    i = i + 1;
                }
                assert(headers_view(headers@).take(headers@.len() as int) =~= headers_view(headers@));
            },
            None => {},
        }
        push_str(&mut s, "\r\n");
        s
    }

    /// The response as logged: its path, or `No path`, and its status.
    pub fn to_string(&self) -> (r: String)
        ensures
            r@ == match self@.path {
                Some(p) => p + " "@ + status_text(self.status_code),
                None => "No path "@ + status_text(self.status_code),
            },
    {
        let mut s = String::new();
        match &self.path {
            Some(p) => {
                push_str(&mut s, p.as_str());
                push_str(&mut s, " ");
            },
            None => push_str(&mut s, "No path "),
        }
        push_str(&mut s, self.status_code.as_str());
        s
    }
}

/// The number of body bytes: the UTF-8 length of text, or the byte count.
pub open spec fn content_bytes_len(c: Option<ContentView>) -> usize {
    match c {
        Some(ContentView::Owned(s)) => vstd::utf8::encode_utf8(s).len() as usize,
        Some(ContentView::Borrowed(b)) => b.len() as usize,
        None => 0,
    }
}

/// Header lines, each `name: value` and CRLF.
pub open spec fn header_lines(h: Seq<(Seq<char>, Seq<char>)>) -> Seq<char>
    decreases h.len(),
{
    if h.len() == 0 {
        Seq::empty()
    } else {
        header_lines(h.drop_last()) + h.last().0 + ": "@ + h.last().1 + "\r\n"@
    }
}

/// The text before a response's body: status line, `Content-Length`,
/// `Content-Type` (plain text where none is set), the extra headers, and a
/// blank line.
pub open spec fn head_text(r: ResponseView) -> Seq<char> {
    "HTTP/1.1 "@ + status_text(r.status_code) + "\r\nContent-Length: "@ + dec(
        content_bytes_len(r.content) as nat,
    ) + "\r\nContent-Type: "@ + match r.content_type {
        Some(ct) => content_type_text(ct),
        None => "text/plain"@,
    } + "\r\n"@ + match r.headers {
        Some(h) => header_lines(h),
        None => Seq::empty(),
    } + "\r\n"@
}

/// The status of a response to a target request: the error's status code
/// where it is 400, 404, 500 or 503, else `200 OK`.
pub open spec fn target_status_of(error: Option<AirfrogError>) -> StatusCode {
    match error {
        Some(e) => {
            let code = error_status(e);
            if code == 400 {
                StatusCode::BadRequest
            } else if code == 404 {
                StatusCode::NotFound
            } else if code == 500 {
                StatusCode::InternalServerError
            } else if code == 503 {
                StatusCode::ServiceUnavailable
            } else {
                StatusCode::Success
            }
        },
        None => StatusCode::Success,
    }
}

/// The status of a response to a target request (see
/// [`target_status_of`]).
pub fn target_status(error: &Option<AirfrogError>) -> (r: StatusCode)
    ensures
        r == target_status_of(*error),
{
    match error {
        Some(e) => match e.status_code() {
            400 => StatusCode::BadRequest,
            404 => StatusCode::NotFound,
            500 => StatusCode::InternalServerError,
            503 => StatusCode::ServiceUnavailable,
            _ => StatusCode::Success,
        },
        None => StatusCode::Success,
    }
}

} // verus!
