use mcp_sessions::httpmsg::HttpServerConfig;
use mcp_sessions::httpmsg::PayloadKind;
use mcp_sessions::httpmsg::chrono_lite_timestamp;
use mcp_sessions::httpmsg::classify_content_type;
use mcp_sessions::httpmsg::join_timestamped_name;
use mcp_sessions::strutil::base_origin;
use mcp_sessions::strutil::contains_substr;
use mcp_sessions::strutil::extension_of;
use mcp_sessions::strutil::parse_u64;
use mcp_sessions::strutil::resolve_endpoint;
use mcp_sessions::strutil::starts_with_lit;
use mcp_sessions::strutil::trim_ascii_ws;
use mcp_sessions::strutil::u64_to_dec_string;

#[test]
fn decimal_rendering() {
    assert_eq!(u64_to_dec_string(0), "0");
    assert_eq!(u64_to_dec_string(7), "7");
    assert_eq!(u64_to_dec_string(10), "10");
    assert_eq!(u64_to_dec_string(1736899200), "1736899200");
    assert_eq!(u64_to_dec_string(u64::MAX), "18446744073709551615");
    assert_eq!(chrono_lite_timestamp(1700000000), "1700000000");
}

#[test]
fn decimal_parsing() {
    assert_eq!(parse_u64("0"), Some(0));
    assert_eq!(parse_u64("0042"), Some(42));
    assert_eq!(parse_u64("18446744073709551615"), Some(u64::MAX));
    assert_eq!(parse_u64("18446744073709551616"), None);
    assert_eq!(parse_u64(""), None);
    assert_eq!(parse_u64("+3"), None);
    assert_eq!(parse_u64("3 "), None);
}

#[test]
fn origin_extraction() {
    assert_eq!(base_origin("http://h:9000/bar"), "http://h:9000");
    assert_eq!(base_origin("https://x.example/a/b?q=1"), "https://x.example");
    assert_eq!(base_origin("http://h"), "http://h");
    assert_eq!(base_origin("http://h?q=1"), "http://h");
    assert_eq!(base_origin("http://h#frag"), "http://h");
    assert_eq!(base_origin("not a url"), "not a url");
}

#[test]
fn endpoint_resolution() {
    assert_eq!(resolve_endpoint("http://h:9000", "/foo/123"), "http://h:9000/foo/123");
    assert_eq!(resolve_endpoint("http://h:9000", "http://other/x"), "http://other/x");
    assert_eq!(resolve_endpoint("http://h:9000", "https://other/x"), "https://other/x");
    assert!(starts_with_lit("https://other/x", "https://"));
    assert!(!starts_with_lit("https://other/x", "http://"));
}

#[test]
fn whitespace_trimming() {
    assert_eq!(trim_ascii_ws("  /messages \r\n"), "/messages");
    assert_eq!(trim_ascii_ws("none"), "none");
    assert_eq!(trim_ascii_ws(" \t\r\n"), "");
    assert_eq!(trim_ascii_ws(""), "");
    assert_eq!(trim_ascii_ws(" a b "), "a b");
}

#[test]
fn substring_search() {
    assert!(contains_substr("a Transport closed b", "Transport closed"));
    assert!(contains_substr("abc", ""));
    assert!(contains_substr("abc", "abc"));
    assert!(!contains_substr("ab", "abc"));
    assert!(!contains_substr("Transport close", "Transport closed"));
}

#[test]
fn file_extension_extraction() {
    assert_eq!(extension_of("photo.png"), "png");
    assert_eq!(extension_of("archive.tar.gz"), "gz");
    assert_eq!(extension_of("noext"), "noext");
    assert_eq!(extension_of("trailing."), "");
}

#[test]
fn stored_file_names() {
    assert_eq!(join_timestamped_name("1700000000", "abcd1234", "png"), "1700000000_abcd1234.png");
}

#[test]
fn content_type_dispatch() {
    assert_eq!(classify_content_type("application/json"), PayloadKind::Json);
    assert_eq!(classify_content_type("Application/JSON; charset=utf-8"), PayloadKind::Json);
    assert_eq!(classify_content_type("text/json"), PayloadKind::Json);
    assert_eq!(
        classify_content_type("multipart/form-data; boundary=xyz"),
        PayloadKind::Multipart,
    );
    assert_eq!(classify_content_type("text/plain"), PayloadKind::Unsupported);
    assert_eq!(classify_content_type(""), PayloadKind::Unsupported);
}

#[test]
fn default_server_config() {
    let cfg = HttpServerConfig::default();
    assert_eq!(cfg.port, 9527);
    assert_eq!(cfg.storage_path, "./received_files");
}
