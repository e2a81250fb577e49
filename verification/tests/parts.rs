//! The parts of the pipeline, one by one.

use server_log::body::CapturedBody;
use server_log::cli::Cli;
use server_log::config::{PipelineConfig, DEFAULT_BODY_LIMIT};
use server_log::media::{content_type_for, content_type_from, extension_of};
use server_log::observe::{
    frame_body, observe_body, observe_head, render_failure_line, render_header_line,
    render_rejection_line, render_request_line,
};
use server_log::outcome::{nop, text200, ErrorKind, ResolvedFile, ResponseOutcome};
use server_log::pipeline::{Action, Step};
use server_log::request::{classify, IncomingRequest, MethodClass};
use server_log::resolve::{ResolutionStrategy, StaticRoot};
use server_log::text::text_eq;

fn owned(lines: &[&str]) -> Vec<String> {
    lines.iter().map(|line| line.to_string()).collect()
}

#[test]
fn safe_methods_are_get_head_options() {
    assert_eq!(classify("GET"), MethodClass::Safe);
    assert_eq!(classify("HEAD"), MethodClass::Safe);
    assert_eq!(classify("OPTIONS"), MethodClass::Safe);
}

#[test]
fn every_other_method_is_mutating() {
    let others =
        ["POST", "PUT", "DELETE", "PATCH", "TRACE", "CONNECT", "PROPFIND", "", "get", "GETS", "GE"];
    for method in others {
        assert_eq!(classify(method), MethodClass::Mutating, "{}", method);
    }
}

#[test]
fn request_class_follows_the_method() {
    let mut request = IncomingRequest {
        method: "OPTIONS".to_string(),
        path: "/".to_string(),
        query: Some("x=1".to_string()),
        headers: vec![("content-length".to_string(), "9999999".to_string())],
    };
    assert_eq!(request.class(), MethodClass::Safe);
    request.method = "POST".to_string();
    assert_eq!(request.class(), MethodClass::Mutating);
}

#[test]
fn text_eq_compares_character_for_character() {
    assert!(text_eq("", ""));
    assert!(text_eq("GET", "GET"));
    assert!(!text_eq("GET", "GEt"));
    assert!(!text_eq("GET", "GETS"));
    assert!(!text_eq("GETS", "GET"));
    assert!(text_eq("caf\u{e9}", "caf\u{e9}"));
    assert!(!text_eq("caf\u{e9}", "cafe"));
}

#[test]
fn cli_defaults() {
    let cli = Cli::default();
    assert_eq!(cli.bind_addr, "0.0.0.0:5000");
    assert_eq!(cli.web_root, "./");
    assert_eq!(cli.log_level, "INFO");
}

#[test]
fn config_from_cli_takes_root_and_default_cap() {
    let cli = Cli {
        bind_addr: "127.0.0.1:8080".to_string(),
        web_root: "/var/www".to_string(),
        log_level: "DEBUG".to_string(),
    };
    let config = PipelineConfig::from_cli(&cli);
    assert_eq!(config.static_root.directory(), "/var/www");
    assert_eq!(config.body_limit, 1024 * 1024);
    assert_eq!(config.body_limit, DEFAULT_BODY_LIMIT);
    assert_eq!(config.strategy, ResolutionStrategy::Direct);
}

#[test]
fn capture_keeps_pieces_in_order() {
    let mut body = CapturedBody::new(10);
    assert_eq!(body.limit(), 10);
    assert!(!body.is_rejected());
    assert!(body.bytes().is_empty());
    body.push(b"abc");
    body.push(b"");
    body.push(b"defg");
    assert!(!body.is_rejected());
    assert_eq!(body.bytes(), b"abcdefg");
}

#[test]
fn capture_accepts_exactly_the_cap() {
    let mut body = CapturedBody::new(4);
    body.push(b"ab");
    body.push(b"cd");
    assert!(!body.is_rejected());
    assert_eq!(body.bytes(), b"abcd");
}

#[test]
fn capture_rejects_one_byte_over_the_cap() {
    let mut body = CapturedBody::new(4);
    body.push(b"ab");
    body.push(b"cde");
    assert!(body.is_rejected());
    assert!(body.bytes().is_empty());
    assert_eq!(body.limit(), 4);
}

#[test]
fn capture_stays_rejected() {
    let mut body = CapturedBody::new(1);
    body.push(b"xy");
    assert!(body.is_rejected());
    body.push(b"");
    body.push(b"z");
    assert!(body.is_rejected());
    assert!(body.bytes().is_empty());
}

#[test]
fn capture_with_zero_cap_takes_only_empty_pieces() {
    let mut body = CapturedBody::new(0);
    body.push(b"");
    assert!(!body.is_rejected());
    body.push(b"a");
    assert!(body.is_rejected());
}

#[test]
fn capture_with_largest_cap_does_not_overflow() {
    let mut body = CapturedBody::new(usize::MAX);
    body.push(b"abc");
    body.push(b"def");
    assert!(!body.is_rejected());
    assert_eq!(body.bytes(), b"abcdef");
}

#[test]
fn request_line_is_stamp_method_path() {
    assert_eq!(
        render_request_line("2024-05-17T09:30:00", "GET", "/index.txt"),
        "2024-05-17T09:30:00 GET /index.txt"
    );
    assert_eq!(render_request_line("", "", ""), "  ");
}

#[test]
fn header_line_is_key_colon_value() {
    assert_eq!(render_header_line("host", "localhost:5000"), "host: localhost:5000");
    assert_eq!(render_header_line("x-empty", ""), "x-empty: ");
}

#[test]
fn failure_line_carries_the_detail() {
    assert_eq!(render_failure_line("permission denied"), "ERROR: permission denied");
}

#[test]
fn rejection_line_is_fixed() {
    assert_eq!(render_rejection_line(), "ERROR: body too large");
}

#[test]
fn head_of_record_is_in_order() {
    let request = IncomingRequest {
        method: "GET".to_string(),
        path: "/a/b".to_string(),
        query: Some("x=1&y=2".to_string()),
        headers: vec![
            ("host".to_string(), "example.org".to_string()),
            ("accept".to_string(), "text/html".to_string()),
            ("accept".to_string(), "application/json".to_string()),
            ("host".to_string(), "example.org".to_string()),
        ],
    };
    assert_eq!(
        observe_head(&request, "2024-05-17T09:30:00"),
        owned(&[
            "2024-05-17T09:30:00 GET /a/b",
            "host: example.org",
            "accept: text/html",
            "accept: application/json",
            "host: example.org",
            "x=1&y=2",
        ])
    );
}

#[test]
fn head_of_record_without_headers_or_query_is_one_line() {
    let request = IncomingRequest {
        method: "DELETE".to_string(),
        path: "/".to_string(),
        query: None,
        headers: Vec::new(),
    };
    assert_eq!(observe_head(&request, "t"), owned(&["t DELETE /"]));
}

#[test]
fn empty_query_is_not_written() {
    let request = IncomingRequest {
        method: "GET".to_string(),
        path: "/".to_string(),
        query: Some(String::new()),
        headers: vec![("a".to_string(), "b".to_string())],
    };
    assert_eq!(observe_head(&request, "t"), owned(&["t GET /", "a: b"]));
}

#[test]
fn query_that_is_not_ascii_is_written() {
    let request = IncomingRequest {
        method: "GET".to_string(),
        path: "/".to_string(),
        query: Some("q=\u{e9}".to_string()),
        headers: Vec::new(),
    };
    assert_eq!(observe_head(&request, "t"), owned(&["t GET /", "q=\u{e9}"]));
}

#[test]
fn body_is_framed_between_delimiters() {
    assert_eq!(
        frame_body("{\"a\":1}".to_string()),
        owned(&["PAYLOAD:", "---", "{\"a\":1}", "---"])
    );
    assert_eq!(frame_body(String::new()), owned(&["PAYLOAD:", "---", "", "---"]));
}

#[test]
fn empty_body_writes_nothing() {
    assert!(observe_body(b"").is_empty());
}

#[test]
fn body_text_is_decoded() {
    assert_eq!(
        observe_body("na\u{ef}ve \u{2603}".as_bytes()),
        owned(&["PAYLOAD:", "---", "na\u{ef}ve \u{2603}", "---"])
    );
}

#[test]
fn invalid_bytes_in_body_are_replaced() {
    let lines = observe_body(&[0x48, 0x69, 0xff, 0xfe, 0x21]);
    assert_eq!(lines, owned(&["PAYLOAD:", "---", "Hi\u{fffd}\u{fffd}!", "---"]));
    let lines = observe_body(&[0xe2, 0x98]);
    assert_eq!(lines[2], "\u{fffd}");
}

fn root(directory: &str) -> StaticRoot {
    StaticRoot::new(directory.to_string())
}

#[test]
fn static_root_keeps_its_directory() {
    assert_eq!(root("/srv/www").directory(), "/srv/www");
    assert_eq!(root("").directory(), "");
}

#[test]
fn join_is_plain_concatenation() {
    assert_eq!(root("/srv/www").join("/index.txt"), "/srv/www/index.txt");
    assert_eq!(root("./").join("/index.txt"), ".//index.txt");
    assert_eq!(root("").join(""), "");
    assert_eq!(root("/srv").join("/../etc/passwd"), "/srv/../etc/passwd");
}

#[test]
fn direct_strategy_has_one_candidate() {
    assert_eq!(
        root("/srv").candidates("/a.txt", &ResolutionStrategy::Direct),
        owned(&["/srv/a.txt"])
    );
}

#[test]
fn fallback_strategy_has_two_candidates_in_order() {
    assert_eq!(
        root("/srv")
            .candidates("/a.txt", &ResolutionStrategy::WithFallback("/index.html".to_string())),
        owned(&["/srv/a.txt", "/srv/index.html"])
    );
}

#[test]
fn extension_is_what_follows_the_last_dot_of_the_last_segment() {
    assert_eq!(extension_of("index.txt"), Some("txt".to_string()));
    assert_eq!(extension_of("/srv/www/archive.tar.gz"), Some("gz".to_string()));
    assert_eq!(extension_of("/srv/a.b/c.HTML"), Some("HTML".to_string()));
    assert_eq!(extension_of("name."), Some(String::new()));
    assert_eq!(extension_of("/d/\u{e9}t\u{e9}.\u{e9}"), Some("\u{e9}".to_string()));
}

#[test]
fn paths_without_extension() {
    assert_eq!(extension_of(""), None);
    assert_eq!(extension_of("Makefile"), None);
    assert_eq!(extension_of("/srv/a.b/c"), None);
    assert_eq!(extension_of(".bashrc"), None);
    assert_eq!(extension_of("/home/u/.bashrc"), None);
    assert_eq!(extension_of("/srv/www.d/"), None);
    assert_eq!(extension_of("."), None);
}

#[test]
fn hidden_file_with_extension() {
    assert_eq!(extension_of("/home/u/.config.json"), Some("json".to_string()));
}

#[test]
fn content_type_follows_the_extension() {
    assert_eq!(content_type_for("/srv/index.txt"), "text/plain");
    assert_eq!(content_type_for("/srv/index.html"), "text/html");
    assert_eq!(content_type_for("/srv/data.json"), "application/json");
    assert_eq!(content_type_for("/srv/photo.PNG"), "image/png");
    assert_eq!(content_type_for("/srv/a.html/b.css"), "text/css");
}

#[test]
fn content_type_defaults_to_octet_stream() {
    assert_eq!(content_type_for("/srv/README"), "application/octet-stream");
    assert_eq!(content_type_for("/srv/file.no-such-extension"), "application/octet-stream");
    assert_eq!(content_type_for("/srv/.txt"), "application/octet-stream");
    assert_eq!(content_type_for("/srv/txt"), "application/octet-stream");
    assert_eq!(content_type_for("/srv/name."), "application/octet-stream");
    assert_eq!(content_type_for(""), "application/octet-stream");
}

#[test]
fn content_type_from_listing() {
    assert_eq!(content_type_from(Some("text/x-test".to_string())), "text/x-test");
    assert_eq!(content_type_from(None), "application/octet-stream");
}

#[test]
fn status_of_each_outcome() {
    let file = ResolvedFile {
        bytes: vec![1, 2, 3],
        content_type: "application/octet-stream".to_string(),
        last_modified: "Fri, 17 May 2024 09:00:00 GMT".to_string(),
    };
    assert_eq!(ResponseOutcome::ServedFile(file).status(), 200);
    assert_eq!(ResponseOutcome::Acknowledged("OK".to_string()).status(), 200);
    assert_eq!(ResponseOutcome::Error(ErrorKind::BodyTooLarge, "x".to_string()).status(), 400);
    assert_eq!(ResponseOutcome::Error(ErrorKind::FileReadFailure, "x".to_string()).status(), 500);
}

#[test]
fn body_of_each_outcome() {
    let file = ResolvedFile {
        bytes: vec![0, 159, 146, 150],
        content_type: "application/octet-stream".to_string(),
        last_modified: String::new(),
    };
    assert_eq!(ResponseOutcome::ServedFile(file).body(), vec![0, 159, 146, 150]);
    assert_eq!(ResponseOutcome::Acknowledged("OK".to_string()).body(), b"OK".to_vec());
    assert_eq!(
        ResponseOutcome::Acknowledged("\u{2603}".to_string()).body(),
        vec![0xe2, 0x98, 0x83]
    );
    assert_eq!(
        ResponseOutcome::Error(ErrorKind::FileReadFailure, "ERROR".to_string()).body(),
        b"ERROR".to_vec()
    );
}

#[test]
fn fixed_outcomes() {
    assert_eq!(ResponseOutcome::acknowledged(), ResponseOutcome::Acknowledged("OK".to_string()));
    assert_eq!(
        ResponseOutcome::too_large(),
        ResponseOutcome::Error(ErrorKind::BodyTooLarge, "body too large".to_string())
    );
    assert_eq!(
        ResponseOutcome::read_failure(),
        ResponseOutcome::Error(ErrorKind::FileReadFailure, "ERROR".to_string())
    );
}

#[test]
fn text200_is_ok_with_the_text() {
    let outcome = text200("hello there");
    assert_eq!(outcome.status(), 200);
    assert_eq!(outcome.body(), b"hello there".to_vec());
    assert_eq!(outcome, ResponseOutcome::Acknowledged("hello there".to_string()));
}

#[test]
fn nop_answers_unreachable() {
    let outcome = nop();
    assert_eq!(outcome.status(), 200);
    assert_eq!(outcome.body(), b"unreachable".to_vec());
}

#[test]
fn quiet_step_writes_nothing() {
    let step = Step::quiet(Action::ReadBody);
    assert!(step.log.is_empty());
    assert_eq!(step.action, Action::ReadBody);
}
