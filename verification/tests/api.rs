use rusty_speed_test::api::{
    bundle_from_match, bundle_url, check_servers, extract_token, locate_bundle, servers_url, token_from_capture, ApiError, ApiResponse, Server, BUNDLE_PATTERN, FAST_HOME_URL,
    TOKEN_PATTERN,
};
use rusty_speed_test::pattern::TextPattern;

#[test]
fn locate_bundle_finds_the_script_name() {
    let html = "<html><script src=\"/app-1a2b3c.js\"></script><script src=\"/app-zz.js\"></script>";
    assert_eq!(locate_bundle(html), Ok("app-1a2b3c.js".to_string()));
}

#[test]
fn locate_bundle_takes_the_shortest_name() {
    let html = "x app-one.js and app-two.js";
    assert_eq!(locate_bundle(html), Ok("app-one.js".to_string()));
}

#[test]
fn locate_bundle_does_not_cross_lines() {
    let html = "app-\nfoo.js";
    assert_eq!(locate_bundle(html), Err(ApiError::BundleNotFound));
}

#[test]
fn locate_bundle_reports_a_missing_bundle() {
    assert_eq!(locate_bundle("<html></html>"), Err(ApiError::BundleNotFound));
    assert_eq!(locate_bundle(""), Err(ApiError::BundleNotFound));
}

#[test]
fn bundle_url_prefixes_the_site() {
    assert_eq!(bundle_url("app-1a2b3c.js"), "https://fast.com/app-1a2b3c.js");
    assert_eq!(FAST_HOME_URL, "https://fast.com");
}

#[test]
fn extract_token_reads_the_quoted_value() {
    let bundle = "var a={https:!0,token:\"YXNkZmFzZGxmbnNkYWZoYXNkZmhrYWxm\",urlCount:5}";
    assert_eq!(
        extract_token(bundle),
        Ok("YXNkZmFzZGxmbnNkYWZoYXNkZmhrYWxm".to_string())
    );
}

#[test]
fn extract_token_takes_the_first_token() {
    let bundle = "token:\"first\" token:\"second\"";
    assert_eq!(extract_token(bundle), Ok("first".to_string()));
}

#[test]
fn extract_token_accepts_an_empty_token() {
    assert_eq!(extract_token("token:\"\""), Ok(String::new()));
}

#[test]
fn extract_token_reports_a_missing_token() {
    assert_eq!(extract_token("token:'x'"), Err(ApiError::TokenNotFound));
    assert_eq!(extract_token("token:\"unterminated"), Err(ApiError::TokenNotFound));
}

#[test]
fn match_outcomes_map_to_errors() {
    assert_eq!(bundle_from_match(Some("app-a.js".to_string())), Ok("app-a.js".to_string()));
    assert_eq!(bundle_from_match(None), Err(ApiError::BundleNotFound));
    assert_eq!(token_from_capture(Some("tok".to_string())), Ok("tok".to_string()));
    assert_eq!(token_from_capture(None), Err(ApiError::TokenNotFound));
}

#[test]
fn text_pattern_refuses_an_invalid_pattern() {
    assert_eq!(TextPattern::new("foo(bar").err(), Some(ApiError::InvalidPattern));
    assert!(TextPattern::new(BUNDLE_PATTERN).is_ok());
    assert!(TextPattern::new(TOKEN_PATTERN).is_ok());
}

#[test]
fn servers_url_names_token_and_count() {
    assert_eq!(
        servers_url("abc", 4),
        "https://api.fast.com/netflix/speedtest/v2?https=true&token=abc&urlCount=4"
    );
    assert_eq!(
        servers_url("t0k", 12),
        "https://api.fast.com/netflix/speedtest/v2?https=true&token=t0k&urlCount=12"
    );
}

#[test]
fn check_servers_refuses_an_empty_list() {
    let response = ApiResponse { targets: Vec::new() };
    assert_eq!(check_servers(response).err(), Some(ApiError::NoServers));
}

#[test]
fn check_servers_keeps_the_servers() {
    let response = ApiResponse {
        targets: vec![
            Server { url: "https://a.example/speedtest".to_string() },
            Server { url: "https://b.example/speedtest".to_string() },
        ],
    };
    let servers = check_servers(response).unwrap();
    let urls: Vec<String> = servers.into_iter().map(|s| s.url).collect();
    assert_eq!(
        urls,
        vec![
            "https://a.example/speedtest".to_string(),
            "https://b.example/speedtest".to_string()
        ]
    );
}

#[test]
fn error_messages() {
    assert_eq!(ApiError::BundleNotFound.message(), "Could not locate Fast.com JS bundle");
    assert_eq!(ApiError::TokenNotFound.message(), "Could not extract token");
    assert_eq!(ApiError::NoServers.message(), "No test servers returned");
    assert_eq!(ApiError::InvalidPattern.message(), "Invalid pattern");
}
