use servo_webview::cursor::{Cursor, CursorShape};
use servo_webview::events::{is_resource_request, EventQueue, ProxyEvent};
use servo_webview::frame::{DEFAULT_WINDOW_HEIGHT, DEFAULT_WINDOW_WIDTH};
use servo_webview::resource::{
    file_extension, reply_status, resource_reply, ResourceReply, STATUS_NOT_FOUND, STATUS_OK,
};
use servo_webview::text::{str_contains, str_starts_with};
use servo_webview::url_input::{add_default_scheme, load_outcome, url_to_load, LoadUrlError};

use url::Url;

#[test]
fn input_without_scheme_gets_https() {
    assert_eq!(add_default_scheme("example.com".to_string()), "https://example.com");
    assert_eq!(add_default_scheme("http://example.com".to_string()), "http://example.com");
    assert_eq!(add_default_scheme("res://index.html".to_string()), "res://index.html");
    assert_eq!(add_default_scheme("".to_string()), "https://");
    assert_eq!(add_default_scheme("mailto:a@b.c".to_string()), "https://mailto:a@b.c");
}

#[test]
fn adding_the_scheme_twice_changes_nothing() {
    for s in ["example.com", "a://b", "", "x:/y", "://"] {
        let once = add_default_scheme(s.to_string());
        let twice = add_default_scheme(once.clone());
        assert_eq!(once, twice);
        assert!(once.contains("://"));
    }
}

#[test]
fn typed_host_is_loaded_over_https() {
    let url = url_to_load("example.com/page".to_string()).expect("valid url");
    assert_eq!(url.as_str(), "https://example.com/page");
    let url = url_to_load("http://example.org".to_string()).expect("valid url");
    assert_eq!(url.as_str(), "http://example.org/");
    let url = url_to_load("example.com".to_string()).expect("valid url");
    assert_eq!(url, Url::parse("https://example.com").unwrap());
    assert_eq!(url.as_str(), "https://example.com/");
    let url = url_to_load("res://index.html".to_string()).expect("valid url");
    assert_eq!(url.as_str(), "res://index.html");
    let url = url_to_load("localhost:8080".to_string()).expect("valid url");
    assert_eq!(url.as_str(), "https://localhost:8080/");
}

#[test]
fn invalid_url_is_refused() {
    match url_to_load("http://[::1".to_string()) {
        Err(LoadUrlError::Invalid(e)) => assert_eq!(e, url::ParseError::InvalidIpv6Address),
        Ok(u) => panic!("unexpected url {}", u),
    }
    assert!(url_to_load("https://".to_string()).is_err());
    match url_to_load("http://".to_string()) {
        Err(LoadUrlError::Invalid(e)) => assert_eq!(e, url::ParseError::EmptyHost),
        Ok(u) => panic!("unexpected url {}", u),
    }
}

#[test]
fn load_outcome_keeps_url_or_error() {
    let u = Url::parse("https://a.b/").unwrap();
    assert_eq!(load_outcome(Ok(u.clone())).unwrap(), u);
    match load_outcome(Err(url::ParseError::EmptyHost)) {
        Err(LoadUrlError::Invalid(e)) => assert_eq!(e, url::ParseError::EmptyHost),
        Ok(_) => panic!("expected an error"),
    }
}

#[test]
fn text_search_matches_std() {
    for (s, p) in [("res://x", "res://"), ("re", "res://"), ("", ""), ("abc", ""), ("abab", "bab"), ("äöü://", "://"), ("a:/b", "://")] {
        assert_eq!(str_starts_with(s, p), s.starts_with(p), "{s} {p}");
        assert_eq!(str_contains(s, p), s.contains(p), "{s} {p}");
    }
}

#[test]
fn only_res_urls_are_served_by_the_view() {
    assert!(is_resource_request("res://ui/index.html"));
    assert!(is_resource_request("res://"));
    assert!(!is_resource_request("res:/x"));
    assert!(!is_resource_request("https://res://"));
    assert!(!is_resource_request("RES://a"));
}

#[test]
fn notifications_are_drained_in_arrival_order() {
    let mut q: EventQueue<u32> = EventQueue::new();
    q.notify_new_frame_ready();
    q.notify_url_changed(Url::parse("https://a.b/c").unwrap());
    q.notify_cursor_changed(Cursor::Text);
    assert!(q.notify_load_web_resource("res://a.png", 7));
    assert!(!q.notify_load_web_resource("https://x/a.png", 8));
    let events = q.drain();
    assert_eq!(events.len(), 4);
    assert!(matches!(events[0], ProxyEvent::NewFrameReady));
    match &events[1] {
        ProxyEvent::UrlChanged(u) => assert_eq!(u.as_str(), "https://a.b/c"),
        _ => panic!("expected a url change"),
    }
    assert!(matches!(events[2], ProxyEvent::CursorChanged(CursorShape::Ibeam)));
    assert!(matches!(events[3], ProxyEvent::LoadWebResource(7)));
    assert!(q.drain().is_empty());
    q.push(ProxyEvent::NewFrameReady);
    assert_eq!(q.drain().len(), 1);
}

#[test]
fn extension_follows_the_last_dot_of_the_file_name() {
    assert_eq!(file_extension("res://ui/index.html"), "html");
    assert_eq!(file_extension("res://a/b.tar.gz"), "gz");
    assert_eq!(file_extension("res://a.dir/file"), "");
    assert_eq!(file_extension("res://a.dir\\file"), "");
    assert_eq!(file_extension("noext"), "");
    assert_eq!(file_extension("trailing."), "");
    assert_eq!(file_extension(".hidden"), "hidden");
    assert_eq!(file_extension("res://x/y.JS"), "JS");
    assert_eq!(file_extension("res://x/ü.bild"), "bild");
    assert_eq!(file_extension(""), "");
}

#[test]
fn reply_depends_on_the_file() {
    assert_eq!(resource_reply(false, false), ResourceReply::PassThrough);
    assert_eq!(resource_reply(false, true), ResourceReply::PassThrough);
    assert_eq!(resource_reply(true, false), ResourceReply::NotFound);
    assert_eq!(resource_reply(true, true), ResourceReply::Serve);
    assert_eq!(reply_status(ResourceReply::PassThrough), None);
    assert_eq!(reply_status(ResourceReply::NotFound), Some(404));
    assert_eq!(reply_status(ResourceReply::Serve), Some(200));
    assert_eq!((STATUS_OK, STATUS_NOT_FOUND), (200, 404));
}

#[test]
fn headless_window_starts_at_800_by_600() {
    assert_eq!((DEFAULT_WINDOW_WIDTH, DEFAULT_WINDOW_HEIGHT), (800, 600));
}
