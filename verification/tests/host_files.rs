use web_host::static_server::{get_content_type, request_path, respond, StaticResponse};
use web_host::text::{join, ends_with, render, same_text, trim_start};
use web_host::webview_manager::{is_listed, same_double, Bounds, WebviewManager, INIT_SCRIPT};
use web_host::protocol::{BackendEvent, BackendMessage};

fn bounds(x: f64, y: f64, width: f64, height: f64) -> Bounds {
    Bounds { x: x.to_bits(), y: y.to_bits(), width: width.to_bits(), height: height.to_bits() }
}

#[test]
fn content_types_by_ending() {
    let cases = [
        ("index.html", "text/html"),
        ("style.css", "text/css"),
        ("app.js", "application/javascript"),
        ("app_bg.wasm", "application/wasm"),
        ("data.json", "application/json"),
        ("logo.png", "image/png"),
        ("photo.jpg", "image/jpeg"),
        ("photo.jpeg", "image/jpeg"),
        ("icon.svg", "image/svg+xml"),
        ("favicon.ico", "image/x-icon"),
        ("font.woff", "font/woff"),
        ("font.woff2", "font/woff2"),
        ("font.ttf", "font/ttf"),
        ("archive.zip", "application/octet-stream"),
        ("", "application/octet-stream"),
        ("html", "application/octet-stream"),
        ("a.HTML", "application/octet-stream"),
        ("dir/page.html?x=1", "application/octet-stream"),
        (".css", "text/css"),
    ];
    for (path, expected) in cases {
        assert_eq!(get_content_type(path), expected, "path {path:?}");
    }
}

#[test]
fn request_path_drops_leading_slashes_and_defaults_to_index() {
    assert_eq!(request_path("/"), "index.html");
    assert_eq!(request_path(""), "index.html");
    assert_eq!(request_path("///"), "index.html");
    assert_eq!(request_path("/app.js"), "app.js");
    assert_eq!(request_path("//pkg/app.wasm"), "pkg/app.wasm");
    assert_eq!(request_path("no/slash"), "no/slash");
    assert_eq!(request_path("/dir/"), "dir/");
    assert_eq!(request_path("/é/ü.css"), "é/ü.css");
}

#[test]
fn found_file_is_served_with_its_type() {
    let response = respond("app.js", Some(vec![1, 2, 3]), Some(vec![9]));
    assert_eq!(
        response,
        StaticResponse::Found { content_type: "application/javascript", body: vec![1, 2, 3] }
    );
    assert_eq!(response.status(), 200);
}

#[test]
fn unknown_path_falls_back_to_the_index_page() {
    let response = respond("some/route", None, Some(vec![60, 33]));
    assert_eq!(response, StaticResponse::Found { content_type: "text/html", body: vec![60, 33] });
    assert_eq!(response.status(), 200);
    let response = respond("data.json", None, Some(vec![60, 33]));
    assert_eq!(response, StaticResponse::Found { content_type: "text/html", body: vec![60, 33] });
}

#[test]
fn nothing_to_serve_is_not_found() {
    let response = respond("app.js", None, None);
    assert_eq!(response, StaticResponse::NotFound);
    assert_eq!(response.status(), 404);
}

#[test]
fn text_helpers() {
    assert!(ends_with("abc", "bc"));
    assert!(ends_with("abc", ""));
    assert!(ends_with("abc", "abc"));
    assert!(!ends_with("abc", "xabc"));
    assert!(!ends_with("abc", "ab"));
    assert!(ends_with("naïve.é", ".é"));
    assert_eq!(trim_start("xxabx", 'x'), "abx");
    assert_eq!(trim_start("", 'x'), "");
    assert_eq!(trim_start("xxx", 'x'), "");
    assert_eq!(join("ab", "cd"), "abcd");
    assert!(same_text("a", "a"));
    assert!(!same_text("a", "A"));
    assert_eq!(render(0, 2), "0");
    assert_eq!(render(5, 2), "101");
    assert_eq!(render(255, 16), "ff");
    assert_eq!(render(4096, 16), "1000");
    assert_eq!(render(1234567890, 10), "1234567890");
    assert_eq!(render(u64::MAX, 16), "ffffffffffffffff");
}

#[test]
fn doubles_compare_as_doubles_do() {
    let values = [
        0.0f64,
        -0.0,
        1.0,
        -1.0,
        0.1,
        f64::MIN_POSITIVE,
        f64::MAX,
        f64::INFINITY,
        f64::NEG_INFINITY,
        f64::NAN,
        -f64::NAN,
        f64::from_bits(0x7FF0_0000_0000_0001),
        f64::from_bits(1),
        640.0,
        480.5,
    ];
    for a in values {
        for b in values {
            assert_eq!(same_double(a.to_bits(), b.to_bits()), a == b, "{a:?} and {b:?}");
        }
    }
}

#[test]
fn bounds_compare_number_by_number() {
    let a = bounds(0.0, 10.0, 640.0, 480.0);
    assert!(a.same_as(&bounds(-0.0, 10.0, 640.0, 480.0)));
    assert!(!a.same_as(&bounds(0.0, 10.0, 640.0, 481.0)));
    assert!(!bounds(f64::NAN, 0.0, 0.0, 0.0).same_as(&bounds(f64::NAN, 0.0, 0.0, 0.0)));
}

#[test]
fn init_script_defines_both_directions() {
    assert!(INIT_SCRIPT.contains("window.onBackendMessage = function(base64Data)"));
    assert!(INIT_SCRIPT.contains("window.sendToBackend = function(base64Data)"));
    assert!(INIT_SCRIPT.contains("window.ipc.postMessage(base64Data);"));
    assert!(INIT_SCRIPT.contains("window.__backendMessageHandler = null;"));
}

#[test]
fn webview_needs_a_window_and_a_free_identifier() {
    let mut manager: WebviewManager<&str, u8> = WebviewManager::new();
    assert_eq!(manager.len(), 0);
    assert!(!manager.has_webview("main"));
    assert_eq!(manager.window_for("main"), None);
    manager.set_window(7);
    assert_eq!(manager.window_for("main"), Some(&7));
    assert!(manager.create_webview("main".to_string(), "handle", bounds(0.0, 0.0, 10.0, 10.0)));
    assert!(manager.has_webview("main"));
    assert_eq!(manager.window_for("main"), None);
    assert_eq!(manager.window_for("other"), Some(&7));
    assert_eq!(manager.webview("main"), Some(&"handle"));
    assert_eq!(manager.webview("other"), None);
}

#[test]
fn second_webview_under_the_same_identifier_is_not_taken() {
    let mut manager: WebviewManager<&str, u8> = WebviewManager::new();
    assert!(manager.create_webview("main".to_string(), "first", bounds(0.0, 0.0, 1.0, 1.0)));
    assert!(!manager.create_webview("main".to_string(), "second", bounds(5.0, 5.0, 1.0, 1.0)));
    assert_eq!(manager.len(), 1);
    assert_eq!(manager.webview("main"), Some(&"first"));
    assert!(!manager.update_position("main", bounds(0.0, 0.0, 1.0, 1.0)));
}

#[test]
fn position_is_updated_only_when_it_changes() {
    let mut manager: WebviewManager<&str, u8> = WebviewManager::new();
    manager.create_webview("main".to_string(), "handle", bounds(0.0, 0.0, 100.0, 50.0));
    assert!(!manager.update_position("main", bounds(0.0, 0.0, 100.0, 50.0)));
    assert!(!manager.update_position("main", bounds(-0.0, 0.0, 100.0, 50.0)));
    assert!(manager.update_position("main", bounds(1.0, 0.0, 100.0, 50.0)));
    assert!(!manager.update_position("main", bounds(1.0, 0.0, 100.0, 50.0)));
    assert!(!manager.update_position("missing", bounds(1.0, 0.0, 100.0, 50.0)));
    assert_eq!(manager.webview("main"), Some(&"handle"));
}

#[test]
fn only_active_webviews_are_retained() {
    let mut manager: WebviewManager<u32, u8> = WebviewManager::new();
    for (index, id) in ["a", "b", "c", "d"].iter().enumerate() {
        assert!(manager.create_webview(id.to_string(), index as u32, bounds(0.0, 0.0, 1.0, 1.0)));
    }
    manager.retain_only(&vec!["d".to_string(), "b".to_string(), "x".to_string()]);
    assert_eq!(manager.len(), 2);
    assert!(!manager.has_webview("a"));
    assert!(manager.has_webview("b"));
    assert!(!manager.has_webview("c"));
    assert!(manager.has_webview("d"));
    assert_eq!(manager.webview("b"), Some(&1));
    assert_eq!(manager.webview("d"), Some(&3));
    let mut walked: Vec<u32> = (0..manager.len()).map(|i| *manager.webview_at(i)).collect();
    walked.sort();
    assert_eq!(walked, vec![1, 3]);
    manager.retain_only(&Vec::new());
    assert_eq!(manager.len(), 0);
}

#[test]
fn listed_identifiers() {
    let ids = vec!["a".to_string(), "b".to_string()];
    assert!(is_listed(&ids, &"a".to_string()));
    assert!(is_listed(&ids, &"b".to_string()));
    assert!(!is_listed(&ids, &"c".to_string()));
    assert!(!is_listed(&Vec::new(), &"a".to_string()));
}

#[test]
fn message_is_sent_as_a_script_to_the_webview_of_the_identifier() {
    let mut manager: WebviewManager<&str, u8> = WebviewManager::new();
    manager.create_webview("main".to_string(), "handle", bounds(0.0, 0.0, 1.0, 1.0));
    let connected = BackendMessage::Event(BackendEvent::Connected);
    assert_eq!(
        manager.send_message("main", &connected),
        Some((&"handle", "window.onBackendMessage('AQA=');".to_string()))
    );
    assert_eq!(manager.send_message("other", &connected), None);
}
