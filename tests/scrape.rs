use link_scraper::client::ClientError;
use link_scraper::retry::{AttemptOutcome, RetryError};
use link_scraper::scrape::{Action, Scrape, ScrapeResult};

const BASE: &str = "https://files.example";

fn exhausted() -> ClientError {
    ClientError::Transport(RetryError { attempts: 4, last: AttemptOutcome::Status(502) })
}

fn links(v: &[&str]) -> Vec<String> {
    v.iter().map(|s| s.to_string()).collect()
}

fn expect_fetch(a: Action, link: &str) {
    match a {
        Action::FetchMarkdown(l) => assert_eq!(l, link),
        other => panic!("expected a fetch, got {:?}", other),
    }
}

fn expect_store(a: Action, key: &str, content: &str) {
    match a {
        Action::Store { key: k, content: c } => {
            assert_eq!(k, key);
            assert_eq!(c, content);
        }
        other => panic!("expected a store, got {:?}", other),
    }
}

fn expect_finish(a: Action) -> ScrapeResult {
    match a {
        Action::Finish(r) => r,
        other => panic!("expected the end, got {:?}", other),
    }
}

#[test]
fn starts_with_discovery() {
    let s = Scrape::new("https://example.com", BASE);
    match s.action() {
        Action::DiscoverLinks(u) => assert_eq!(u, "https://example.com"),
        other => panic!("expected discovery, got {:?}", other),
    }
}

#[test]
fn end_to_end_one_link_fails() {
    let mut s = Scrape::new("https://example.com", BASE);
    let a = s.on_links(Ok(links(&["https://example.com/a", "https://example.com/b"])));
    expect_fetch(a, "https://example.com/a");
    let a = s.on_markdown_at(Ok("# A".to_string()), 1700000000000);
    expect_store(a, "markdown/https_example_com_a_1700000000000.md", "# A");
    let a = s.on_stored(Ok(()));
    expect_fetch(a, "https://example.com/b");
    let r = expect_finish(s.on_markdown_at(Err(exhausted()), 1700000000001));
    assert!(r.success);
    assert_eq!(r.stored_locations, vec!["https://files.example/markdown/https_example_com_a_1700000000000.md".to_string()]);
    assert_eq!(r.error, None);
}

#[test]
fn discovery_rejected() {
    let mut s = Scrape::new("https://example.com", BASE);
    let r = expect_finish(s.on_links(Err(ClientError::Rejected)));
    assert!(!r.success);
    assert!(r.stored_locations.is_empty());
    let e = r.error.unwrap();
    assert_eq!(e, "Scraping failed: Failed to fetch links: Links API returned success: false");
    assert!(e.contains("links"));
}

#[test]
fn discovery_transport_failure() {
    let mut s = Scrape::new("https://example.com", BASE);
    let r = expect_finish(s.on_links(Err(exhausted())));
    assert!(!r.success);
    assert!(r.stored_locations.is_empty());
    assert_eq!(
        r.error.unwrap(),
        "Scraping failed: Failed to fetch links: Links request failed: HTTP error after 4 attempts: 502"
    );
    // nothing that is reported later changes the result
    let r2 = expect_finish(s.on_markdown_at(Ok("x".to_string()), 1));
    assert!(!r2.success);
    assert!(r2.stored_locations.is_empty());
}

#[test]
fn discovery_decode_failure() {
    let mut s = Scrape::new("https://example.com", BASE);
    let r = expect_finish(s.on_links(Err(ClientError::Decode)));
    assert!(!r.success);
    assert!(r.error.unwrap().contains("links"));
}

#[test]
fn no_links_is_success() {
    let mut s = Scrape::new("https://example.com", BASE);
    let r = expect_finish(s.on_links(Ok(vec![])));
    assert!(r.success);
    assert!(r.stored_locations.is_empty());
    assert_eq!(r.error, None);
}

#[test]
fn every_fetch_skipped() {
    let mut s = Scrape::new("https://example.com", BASE);
    s.on_links(Ok(links(&["/a", "/b"])));
    s.on_markdown_at(Err(ClientError::Rejected), 1);
    let r = expect_finish(s.on_markdown_at(Err(ClientError::Decode), 2));
    assert!(r.success);
    assert!(r.stored_locations.is_empty());
}

#[test]
fn storage_failure_fails_all() {
    let mut s = Scrape::new("https://example.com", BASE);
    s.on_links(Ok(links(&["https://example.com/a", "https://example.com/b", "https://example.com/c"])));
    s.on_markdown_at(Ok("A".to_string()), 10);
    expect_fetch(s.on_stored(Ok(())), "https://example.com/b");
    expect_store(s.on_markdown_at(Ok("B".to_string()), 11), "markdown/https_example_com_b_11.md", "B");
    let r = expect_finish(s.on_stored(Err("bucket unavailable".to_string())));
    assert!(!r.success);
    assert!(r.stored_locations.is_empty());
    assert_eq!(
        r.error.unwrap(),
        "Scraping failed: Failed to store markdown/https_example_com_b_11.md: bucket unavailable"
    );
}

#[test]
fn order_follows_discovery_with_duplicates() {
    let mut s = Scrape::new("https://example.com", BASE);
    s.on_links(Ok(links(&["/x", "/y", "/x", "/z"])));
    s.on_markdown_at(Ok("x".to_string()), 1);
    s.on_stored(Ok(()));
    s.on_markdown_at(Err(exhausted()), 2);
    s.on_markdown_at(Ok("x again".to_string()), 3);
    s.on_stored(Ok(()));
    s.on_markdown_at(Ok("z".to_string()), 4);
    let r = expect_finish(s.on_stored(Ok(())));
    assert!(r.success);
    assert_eq!(
        r.stored_locations,
        vec![
            "https://files.example/markdown/_x_1.md".to_string(),
            "https://files.example/markdown/_x_3.md".to_string(),
            "https://files.example/markdown/_z_4.md".to_string(),
        ]
    );
}

fn run(stamps: [i64; 3]) -> ScrapeResult {
    let mut s = Scrape::new("https://example.com", BASE);
    s.on_links(Ok(links(&["/a", "/b", "/c"])));
    s.on_markdown_at(Ok("a".to_string()), stamps[0]);
    s.on_stored(Ok(()));
    s.on_markdown_at(Err(ClientError::Rejected), stamps[1]);
    s.on_markdown_at(Ok("c".to_string()), stamps[2]);
    expect_finish(s.on_stored(Ok(())))
}

#[test]
fn same_count_across_runs() {
    let r1 = run([1, 2, 3]);
    let r2 = run([100, 200, 300]);
    assert_eq!(r1.stored_locations.len(), 2);
    assert_eq!(r2.stored_locations.len(), 2);
    assert_ne!(r1.stored_locations, r2.stored_locations);
}

#[test]
fn markdown_with_current_time() {
    let mut s = Scrape::new("https://example.com", BASE);
    s.on_links(Ok(links(&["https://a.com/x"])));
    match s.on_markdown(Ok("t".to_string())) {
        Action::Store { key, content } => {
            assert!(key.starts_with("markdown/https_a_com_x_"));
            assert!(key.ends_with(".md"));
            assert_eq!(content, "t");
        }
        other => panic!("expected a store, got {:?}", other),
    }
}
