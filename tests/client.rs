use link_scraper::client::{build_request, decode_links, decode_markdown, endpoint_of, payload_outcome, Capability, ClientError, Credentials};
use link_scraper::retry::{AttemptOutcome, RetryError};

fn creds() -> Credentials {
    Credentials { account_id: "acc123".to_string(), api_token: "tok".to_string() }
}

#[test]
fn endpoints() {
    assert_eq!(
        endpoint_of("acc123", Capability::Links),
        "https://api.cloudflare.com/client/v4/accounts/acc123/browser-rendering/links"
    );
    assert_eq!(
        endpoint_of("acc123", Capability::Markdown),
        "https://api.cloudflare.com/client/v4/accounts/acc123/browser-rendering/markdown"
    );
}

#[test]
fn request_is_built() {
    let r = build_request(&creds(), Capability::Links, "https://example.com");
    assert_eq!(r.url, "https://api.cloudflare.com/client/v4/accounts/acc123/browser-rendering/links");
    assert_eq!(r.authorization, "Bearer tok");
    assert_eq!(r.body, "{\"url\":\"https://example.com\"}");
}

#[test]
fn request_body_escapes() {
    let r = build_request(&creds(), Capability::Markdown, "a\"b\\c");
    assert_eq!(r.body, "{\"url\":\"a\\\"b\\\\c\"}");
}

#[test]
fn links_are_decoded() {
    let r = decode_links("{\"success\":true,\"result\":[\"https://example.com/a\",\"/b\"]}");
    assert_eq!(r, Ok(vec!["https://example.com/a".to_string(), "/b".to_string()]));
    assert_eq!(decode_links("{\"success\":true,\"result\":[],\"errors\":[]}"), Ok(vec![]));
}

#[test]
fn links_rejected() {
    assert_eq!(decode_links("{\"success\":false,\"result\":[]}"), Err(ClientError::Rejected));
}

#[test]
fn links_malformed() {
    assert_eq!(decode_links("not json"), Err(ClientError::Decode));
    assert_eq!(decode_links("{\"success\":true}"), Err(ClientError::Decode));
    assert_eq!(decode_links("{\"success\":true,\"result\":\"x\"}"), Err(ClientError::Decode));
    assert_eq!(decode_links("{\"success\":true,\"result\":[1]}"), Err(ClientError::Decode));
}

#[test]
fn markdown_decoded() {
    assert_eq!(decode_markdown("{\"success\":true,\"result\":\"# A\"}"), Ok("# A".to_string()));
    assert_eq!(decode_markdown("{\"success\":false,\"result\":\"\"}"), Err(ClientError::Rejected));
    assert_eq!(decode_markdown("{\"result\":\"# A\"}"), Err(ClientError::Decode));
    assert_eq!(decode_markdown("{\"success\":true,\"result\":[\"x\"]}"), Err(ClientError::Decode));
}

#[test]
fn payload_outcomes() {
    assert_eq!(payload_outcome(Some((true, 5))), Ok(5));
    assert_eq!(payload_outcome(Some((false, 5))), Err(ClientError::Rejected));
    assert_eq!(payload_outcome::<i32>(None), Err(ClientError::Decode));
}

#[test]
fn error_messages() {
    let e = ClientError::Transport(RetryError { attempts: 4, last: AttemptOutcome::Status(503) });
    assert_eq!(e.message(Capability::Links), "Links request failed: HTTP error after 4 attempts: 503");
    let t = ClientError::Transport(RetryError { attempts: 4, last: AttemptOutcome::Transport("timed out".to_string()) });
    assert_eq!(t.message(Capability::Markdown), "Markdown request failed: Request failed after 4 attempts: timed out");
    assert_eq!(ClientError::Rejected.message(Capability::Links), "Links API returned success: false");
    assert_eq!(ClientError::Decode.message(Capability::Markdown), "Failed to parse markdown response");
}
