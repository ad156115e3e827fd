use airfrog::error::{AirfrogError, ErrorKind};
use airfrog::swd::SwdError;
use airfrog::http::assets::{Asset, PKG_VERSION};
use airfrog::http::html::{
    escape, html_bad_request, html_not_found, html_summary, html_timeout, page_dashboard,
    page_target_firmware, FirmwareInfo, HtmlContent, TargetStatus,
};
use airfrog::http::server::{
    after_body_read, after_head_read, body_response, copy_body_start, find_header_end,
    head_response, read_head, reboot_requested, reboot_response, route, rtt_data_requested,
    rtt_hex_bytes, BodyRead, HeadOutcome, HeadRead, Route, WwwPage,
};
use airfrog::http::{
    target_status, ContentType, Header, Method, Response, ResponseContent, Rest, StaticFile,
    StatusCode,
};

fn body_of(r: &Response) -> String {
    match &r.content {
        Some(ResponseContent::Owned(s)) => s.clone(),
        _ => panic!("no text body"),
    }
}

#[test]
fn status_codes() {
    assert_eq!(StatusCode::NotFound.code(), 404);
    assert_eq!(StatusCode::NotFound.as_str(), "404 Not Found");
    assert_eq!(StatusCode::from_u16(413), StatusCode::TooLarge);
    assert_eq!(StatusCode::from_u16(418), StatusCode::InternalServerError);
    for s in [StatusCode::Success, StatusCode::Found, StatusCode::BadRequest, StatusCode::Timeout, StatusCode::ServiceUnavailable] {
        assert_eq!(StatusCode::from_u16(s.code()), s);
    }
    let e = AirfrogError::Airfrog(ErrorKind::InvalidPath);
    assert_eq!(StatusCode::from(e), StatusCode::NotFound);
}

#[test]
fn content_types_and_methods() {
    assert_eq!(ContentType::Json.as_str(), "application/json");
    assert_eq!(ContentType::Png.as_str(), "image/png");
    assert_eq!(ContentType::HTML, "text/html");
    assert_eq!(Method::from_str("GET"), Some(Method::Get));
    assert_eq!(Method::from_str("POST"), Some(Method::Post));
    assert_eq!(Method::from_str("get"), None);
    assert_eq!(Method::Post.as_str(), "POST");
}

#[test]
fn response_head_text() {
    let r = Response::json_already("/api/x", "{}".to_string(), StatusCode::Success);
    assert_eq!(r.head_text(), "HTTP/1.1 200 OK\r\nContent-Length: 2\r\nContent-Type: application/json\r\n\r\n");
    let r = Response::redirect("/", "/www/");
    assert_eq!(r.head_text(), "HTTP/1.1 302 Found\r\nContent-Length: 0\r\nContent-Type: text/plain\r\nLocation: /www/\r\n\r\n");
    assert_eq!(r.to_string(), "/ 302 Found");
    let r = Response::status_code_default(None, StatusCode::TooLarge);
    assert_eq!(r.to_string(), "No path 413 Payload Too Large");
}

#[test]
fn no_cache_adds_headers_after_existing_ones() {
    let r = Response::redirect("/", "/www/").no_cache();
    let names: Vec<&str> = r.headers.as_ref().unwrap().iter().map(|h| h.name).collect();
    assert_eq!(names, vec!["Location", "Cache-Control", "Pragma", "Expires"]);
    let r = Response::ok("/p", "x".to_string(), ContentType::_Text).no_cache();
    assert_eq!(r.headers.unwrap().len(), 3);
}

#[test]
fn status_responses_follow_the_format() {
    let r = Response::not_found(Some(ContentType::Json), "/x");
    assert_eq!(body_of(&r), "{}");
    assert_eq!(r.content_type, Some(ContentType::Json));
    let r = Response::not_found(Some(ContentType::Html), "/x");
    assert_eq!(body_of(&r), html_not_found().0);
    let r = Response::bad_request(Some(ContentType::Html), "/x");
    assert_eq!(body_of(&r), html_bad_request().0);
    let r = Response::status_code(Some(ContentType::Html), Some("/x"), StatusCode::Timeout);
    assert_eq!(body_of(&r), html_timeout().0);
    let r = Response::too_large(Some(ContentType::Html), "/x");
    assert!(r.content.is_none());
    let r = Response::not_found(None, "/x");
    assert!(r.content.is_none());
    assert_eq!(r.path.as_deref(), Some("/x"));
}

#[test]
fn error_responses() {
    let e = AirfrogError::Airfrog(ErrorKind::BadRequest);
    let r = Response::error(Some(ContentType::Json), "/api", e.clone(), "{\"e\":1}".to_string());
    assert_eq!(r.status_code, StatusCode::BadRequest);
    assert_eq!(body_of(&r), "{\"e\":1}");
    let r = Response::error(None, "/api", e, "{}".to_string());
    assert!(r.content.is_none());
    assert_eq!(target_status(&Some(AirfrogError::Airfrog(ErrorKind::NoFirmware))), StatusCode::NotFound);
    assert_eq!(target_status(&Some(AirfrogError::Airfrog(ErrorKind::Network))), StatusCode::ServiceUnavailable);
    assert_eq!(target_status(&Some(AirfrogError::Swd(SwdError::NotReady))), StatusCode::ServiceUnavailable);
    assert_eq!(target_status(&None), StatusCode::Success);
}

static CACHE: [Header; 1] = [Header { name: "Cache-Control", value: "public, max-age=31536000" }];

#[test]
fn static_files() {
    let f = StaticFile { path: "/static/a.css", content_type: ContentType::Css, content: b"body{}", headers: &CACHE };
    let r = Response::static_file("/static/a.css", f);
    assert_eq!(r.content_len(), 6);
    assert_eq!(r.headers.unwrap()[0].value, "public, max-age=31536000");
    let f = StaticFile { path: "/x", content_type: ContentType::Png, content: b"", headers: &[] };
    assert!(Response::static_file("/x", f).headers.is_none());
}

#[test]
fn header_end() {
    assert_eq!(find_header_end(b"GET / HTTP/1.1\r\n\r\nbody"), Some(18));
    assert_eq!(find_header_end(b"GET / HTTP/1.1\r\n"), None);
    assert_eq!(find_header_end(b"\r\n\r\n\r\n\r\n"), Some(4));
}

#[test]
fn request_heads() {
    let (o, h) = read_head(b"GET /www/ HTTP/1.1\r\nHost: x\r\nAccept: text/html\r\ncontent-length: 5\r\n\r\n");
    assert_eq!(o, HeadOutcome::Accept { method: Method::Get, content_length: 5, format: Some(ContentType::Html) });
    assert_eq!(h.unwrap().path.as_deref(), Some("/www/"));
    let (o, _) = read_head(b"POST /api/raw HTTP/1.1\r\nAccept: application/json, */*\r\n\r\n");
    assert_eq!(o, HeadOutcome::Accept { method: Method::Post, content_length: 0, format: Some(ContentType::Json) });
    let (o, _) = read_head(b"GET / HTTP/1.1\r\nAccept: text/plain\r\nContent-Length: abc\r\n\r\n");
    assert_eq!(o, HeadOutcome::Accept { method: Method::Get, content_length: 0, format: None });
    let (o, _) = read_head(b"PUT / HTTP/1.1\r\n\r\n");
    assert_eq!(o, HeadOutcome::BadMethod);
    let (o, _) = read_head(b"POST / HTTP/1.1\r\nContent-Length: 5000\r\n\r\n");
    assert_eq!(o, HeadOutcome::TooLarge);
    let (o, h) = read_head(b"\x01\x02 bad\r\n\r\n");
    assert_eq!(o, HeadOutcome::BadRequest);
    assert!(h.is_none());
}

#[test]
fn routes() {
    assert_eq!(route(Method::Get, "/"), Route::Redirect);
    assert_eq!(route(Method::Post, "/index.html"), Route::Redirect);
    assert_eq!(route(Method::Get, "/favicon.ico"), Route::Favicon);
    assert_eq!(route(Method::Get, &Asset::Css.path()), Route::Static(Asset::Css));
    assert_eq!(route(Method::Get, "/www/"), Route::Www(WwwPage::Dashboard));
    assert_eq!(route(Method::Get, "/www"), Route::Www(WwwPage::Dashboard));
    assert_eq!(route(Method::Get, "/www/info"), Route::Www(WwwPage::Info));
    assert_eq!(route(Method::Post, "/www/info"), Route::Redirect);
    assert_eq!(route(Method::Get, "/www/nothing"), Route::Redirect);
    assert_eq!(route(Method::Get, "/api/target/reset"), Route::Api { rest: Rest::Target, offset: 11 });
    assert_eq!(route(Method::Post, "/api/raw/dp/0"), Route::Api { rest: Rest::Raw, offset: 8 });
    assert_eq!(route(Method::Get, "/api/config/swd"), Route::Api { rest: Rest::SwdConfig, offset: 15 });
    assert_eq!(route(Method::Get, "/api/config/net"), Route::ConfigNet { offset: 15 });
    assert_eq!(route(Method::Post, "/api/reboot"), Route::Reboot { offset: 11 });
    assert_eq!(route(Method::Get, "/api/rtt/data"), Route::Rtt { offset: 8 });
    assert_eq!(route(Method::Get, "/api/nothing"), Route::ApiNotFound);
    assert_eq!(route(Method::Get, "/nothing"), Route::NotFound);
}

#[test]
fn asset_paths() {
    assert_eq!(Asset::Favicon.path(), format!("/static/favicon-32x32.{PKG_VERSION}-a.png"));
    assert_eq!(Asset::MemoryJs.path(), format!("/static/memory.{PKG_VERSION}-u.js"));
}

#[test]
fn api_handlers() {
    assert!(rtt_data_requested(Method::Get, "/data"));
    assert!(!rtt_data_requested(Method::Post, "/data"));
    assert_eq!(rtt_hex_bytes(&[0x0a, 0xff]), vec!["0x0A".to_string(), "0xFF".to_string()]);
    assert!(reboot_requested(Method::Post, ""));
    assert!(!reboot_requested(Method::Get, ""));
    let r = reboot_response("/api/reboot");
    assert_eq!(body_of(&r), "{}");
    assert_eq!(r.headers.unwrap()[0].name, "Connection");
}

#[test]
fn html_escaping() {
    assert_eq!(escape("a<b>&\"c'"), "a&lt;b&gt;&amp;&quot;c&#39;");
    assert_eq!(escape("plain"), "plain");
}

#[test]
fn html_pages() {
    let page = HtmlContent::new("<p>hi</p>".to_string()).0;
    assert!(page.starts_with("<!DOCTYPE html><html><head>"));
    assert!(page.contains("<div class=\"content\"><p>hi</p></div>"));
    assert!(page.contains(&Asset::Logo.path()));
    assert!(page.ends_with("</script></body>"));
    let d = page_dashboard("SUMMARY".to_string()).0;
    assert!(d.contains("<h1>Airfrog Dashboard</h1>\nSUMMARY\n"));
    let f = page_target_firmware(FirmwareInfo::Missing).0;
    assert!(f.contains("No firmware information available."));
    let f = page_target_firmware(FirmwareInfo::Html("<b>fw</b>".to_string())).0;
    assert!(f.contains("<h1>Target Firmware Information</h1>\n<b>fw</b>"));
}

#[test]
fn status_card() {
    let st = TargetStatus { connected: true, auto_connect: true, mcu: Some("STM32F411".to_string()) };
    let card = html_summary(Some(&st), None, true);
    assert!(card.contains("<span class=\"status ok\">Connected</span>"));
    assert!(card.contains("<td>STM32F411</td>"));
    assert!(card.contains("<td>Unknown</td></tr><tr><td class=\"label-col\"><strong>Auto Connect:</strong></td><td>Enabled</td></tr>"));
    let card = html_summary(Some(&st), Some("ROWS".to_string()), true);
    assert!(card.contains("ROWS"));
    let card = html_summary(None, None, true);
    assert!(card.contains("Disconnected"));
    assert!(card.contains("<td>None</td></tr><tr><td class=\"label-col\"><strong>Auto Connect:</strong></td><td>Unknown</td></tr>"));
    let card = html_summary(Some(&st), None, false);
    assert!(card.contains("Details below"));
}

#[test]
fn header_names_ignore_case_and_values_must_be_utf8() {
    let (o, _) = read_head(b"GET / HTTP/1.1\r\nCONTENT-LENGTH: +7\r\nACCEPT: */*\r\n\r\n");
    assert_eq!(o, HeadOutcome::Accept { method: Method::Get, content_length: 7, format: Some(ContentType::Html) });
    let (o, _) = read_head(b"GET / HTTP/1.1\r\nAccept: \xff html\r\n\r\n");
    assert_eq!(o, HeadOutcome::Accept { method: Method::Get, content_length: 0, format: None });
    let (o, _) = read_head(b"GET / HTTP/1.1\r\nAccept: text/html\r\nAccept: application/json\r\n\r\n");
    assert_eq!(o, HeadOutcome::Accept { method: Method::Get, content_length: 0, format: Some(ContentType::Html) });
}

#[test]
fn every_static_file_is_routed_to_itself() {
    for a in [
        Asset::Logo,
        Asset::Favicon,
        Asset::Css,
        Asset::BrowserHtml,
        Asset::ConfigUpdateJs,
        Asset::MemoryJs,
        Asset::MemoryCss,
        Asset::FooterHtml,
        Asset::RttHtml,
        Asset::RttJs,
    ] {
        assert_eq!(route(Method::Post, &a.path()), Route::Static(a));
    }
}

#[test]
fn status_texts_begin_with_their_number() {
    for s in [
        StatusCode::Success,
        StatusCode::Found,
        StatusCode::BadRequest,
        StatusCode::NotFound,
        StatusCode::_InvalidMethod,
        StatusCode::Timeout,
        StatusCode::TooLarge,
        StatusCode::InternalServerError,
        StatusCode::ServiceUnavailable,
    ] {
        assert!(s.as_str().starts_with(&format!("{} ", s.code())));
    }
    assert_eq!(StatusCode::Timeout.as_str(), "408 Request Timeout");
}

#[test]
fn reading_a_request() {
    let mut buf = [0u8; 2048];
    let part = b"GET /www/ HTTP/1.1\r\n";
    buf[..part.len()].copy_from_slice(part);
    assert_eq!(after_head_read(&buf, 0, 0), HeadRead::Closed);
    assert_eq!(after_head_read(&buf, 0, part.len()), HeadRead::More { total: part.len() });
    let rest = b"\r\nhello";
    buf[part.len()..part.len() + rest.len()].copy_from_slice(rest);
    let total = part.len() + rest.len();
    assert_eq!(after_head_read(&buf, part.len(), rest.len()), HeadRead::Complete { total, end: part.len() + 2 });
    assert_eq!(after_head_read(&[b'a'; 2048], 2000, 48), HeadRead::TooLarge);

    let mut body = [0u8; 8];
    assert_eq!(copy_body_start(&buf, total, part.len() + 2, 3, &mut body), 3);
    assert_eq!(&body[..3], b"hel");
    assert_eq!(copy_body_start(&buf, total, part.len() + 2, 8, &mut body), 5);
    assert_eq!(&body[..5], b"hello");
    assert_eq!(after_body_read(5, 0, 8), BodyRead::Closed);
    assert_eq!(after_body_read(5, 2, 8), BodyRead::More { read: 7 });
    assert_eq!(after_body_read(5, 3, 8), BodyRead::Complete);
    assert!(body_response(b"{}", 2, None, "/api").is_none());
    let r = body_response(&[0xFF, 0xFE], 2, Some(ContentType::Json), "/api").unwrap();
    assert_eq!(r.status_code, StatusCode::BadRequest);

    let (outcome, head) = read_head(b"BREW /pot HTTP/1.1\r\n\r\n");
    assert_eq!(outcome, HeadOutcome::BadMethod);
    let r = head_response(outcome, &head).unwrap();
    assert_eq!(r.status_code, StatusCode::BadRequest);
    assert_eq!(r.path.as_deref(), Some("/pot"));
    let (outcome, head) = read_head(b"GET / HTTP/1.1\r\n\r\n");
    assert!(head_response(outcome, &head).is_none());
}
