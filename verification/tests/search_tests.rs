use larkin_mcp::schema::SearchQuery;
use larkin_mcp::server::LarkinServer;
use larkin_mcp::store::ContentStore;

fn store_with(projects: &str, bio: &str) -> ContentStore {
    ContentStore::new(
        "Resume text".to_string(),
        bio.to_string(),
        projects.to_string(),
        "Contact text".to_string(),
        "Skills text".to_string(),
        "Work text".to_string(),
        "Tennis text".to_string(),
        vec![1u8, 2, 3],
    )
}

fn query(s: &str) -> SearchQuery {
    SearchQuery { query: s.to_string() }
}

#[test]
fn search_finds_matching_lines_in_declared_order() {
    let store = store_with("project alpha\nnothing here\nproject beta", "a project note");
    let results = store.search_resources("project");
    assert_eq!(results.len(), 2);
    assert_eq!(results[0].0, "bio");
    assert_eq!(results[0].1, vec!["a project note".to_string()]);
    assert_eq!(results[1].0, "projects");
    assert_eq!(
        results[1].1,
        vec!["project alpha".to_string(), "project beta".to_string()]
    );
}

#[test]
fn search_caps_at_five_lines_per_document_in_original_order() {
    let ten_lines: Vec<String> = (1..=10).map(|i| format!("match line {}", i)).collect();
    let store = store_with(&ten_lines.join("\n"), "quiet");
    let results = store.search_resources("match line");
    assert_eq!(results.len(), 1);
    assert_eq!(results[0].0, "projects");
    assert_eq!(results[0].1.len(), 5);
    let expected: Vec<String> = (1..=5).map(|i| format!("match line {}", i)).collect();
    assert_eq!(results[0].1, expected);
}

#[test]
fn search_is_case_insensitive() {
    let store = store_with("The PROJECT list\nanother Project", "quiet");
    let server = LarkinServer::new(store);
    let upper = server.search_info(&query("PROJECT"));
    let lower = server.search_info(&query("project"));
    assert_eq!(upper, lower);
    assert!(upper.contains("The PROJECT list"));
}

#[test]
fn search_formats_headings_and_trimmed_bullets() {
    let store = store_with("  spaced project line  \nplain", "quiet");
    let server = LarkinServer::new(store);
    let out = server.search_info(&query("project"));
    assert_eq!(out, "## Projects\n  - spaced project line");
}

#[test]
fn search_absent_string_reports_no_matches_consistently() {
    let store = store_with("alpha", "beta");
    let server = LarkinServer::new(store);
    let first = server.search_info(&query("zz_not_anywhere"));
    let second = server.search_info(&query("zz_not_anywhere"));
    assert_eq!(first, "No matches found for 'zz_not_anywhere'");
    assert_eq!(first, second);
}

#[test]
fn search_empty_query_matches_every_line_consistently() {
    // The empty string is a substring of every line, so an empty query
    // reports every document (capped at five lines each); the behavior
    // is the same on repeated calls.
    let store = store_with("p1\np2", "b1");
    let server = LarkinServer::new(store);
    let first = server.search_info(&query(""));
    let second = server.search_info(&query(""));
    assert_eq!(first, second);
    assert!(first.contains("## Resume"));
    assert!(first.contains("## Bio"));
    assert!(first.contains("  - p1"));
    assert!(first.contains("  - p2"));
    assert!(first.contains("## Tennis"));
}

#[test]
fn search_multiline_crlf_document() {
    let store = store_with("win line\r\nwin again\r\n", "quiet");
    let server = LarkinServer::new(store);
    let out = server.search_info(&query("win"));
    assert_eq!(out, "## Projects\n  - win line\n  - win again");
}
