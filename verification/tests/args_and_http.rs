use zotero_mcp_rs::args::citation_key_for;
use zotero_mcp_rs::error::ZoteroMcpError;
use zotero_mcp_rs::args::{collections_for_new_item, duplicate_probe};
use zotero_mcp_rs::args::{capped_limit, limit_or, DEFAULT_RECENT_LIMIT, MAX_RECENT_LIMIT};
use zotero_mcp_rs::args::LibraryCoverageArgs;
use zotero_mcp_rs::args::{GetItemMetadataArgs, MetadataFormat, SearchItemsArgs, DEFAULT_SEARCH_LIMIT};
use zotero_mcp_rs::http::{http_response, http_response_with_headers};

#[test]
fn connector_search_uses_default_page() {
    let args = SearchItemsArgs::for_connector("quantum computing".to_owned());
    assert_eq!(args.query, "quantum computing");
    assert_eq!(args.collection_key, None);
    assert_eq!(args.start, None);
    assert_eq!(args.limit, Some(20));
    assert_eq!(args.offset(), 0);
    assert_eq!(args.page_size(), DEFAULT_SEARCH_LIMIT);
}

#[test]
fn explicit_paging_is_kept() {
    let args = SearchItemsArgs { query: "q".to_owned(), collection_key: None, start: Some(40), limit: Some(5) };
    assert_eq!(args.offset(), 40);
    assert_eq!(args.page_size(), 5);
    let defaults = SearchItemsArgs { query: "q".to_owned(), collection_key: None, start: None, limit: None };
    assert_eq!(defaults.page_size(), 20);
}

#[test]
fn metadata_defaults_to_json() {
    let args = GetItemMetadataArgs::json("ITEM1".to_owned());
    assert_eq!(args.item_key, "ITEM1");
    assert_eq!(args.format, None);
    assert_eq!(args.resolved_format(), MetadataFormat::Json);
    let bib = GetItemMetadataArgs { item_key: "ITEM1".to_owned(), format: Some(MetadataFormat::Bibtex) };
    assert_eq!(bib.resolved_format(), MetadataFormat::Bibtex);
    assert_eq!(MetadataFormat::default(), MetadataFormat::Json);
}

#[test]
fn response_declares_body_length_in_bytes() {
    assert_eq!(
        http_response("200 OK", "[]"),
        "HTTP/1.1 200 OK\r\nContent-Length: 2\r\nContent-Type: application/json\r\nConnection: close\r\n\r\n[]"
    );
    let r = http_response("200 OK", "é");
    assert!(r.contains("Content-Length: 2\r\n"));
}

#[test]
fn response_headers_come_before_standard_ones() {
    assert_eq!(
        http_response_with_headers("404 Not Found", &[("X-A", "1"), ("X-B", "two")], "{}"),
        "HTTP/1.1 404 Not Found\r\nX-A: 1\r\nX-B: two\r\nContent-Length: 2\r\nContent-Type: application/json\r\nConnection: close\r\n\r\n{}"
    );
    assert_eq!(http_response_with_headers("200 OK", &[], ""), http_response("200 OK", ""));
}

#[test]
fn coverage_pages_default_and_cap() {
    let defaults = LibraryCoverageArgs { collection_key: None, start: None, limit: None };
    assert_eq!(defaults.offset(), 0);
    assert_eq!(defaults.page_size(), 100);
    let big = LibraryCoverageArgs { collection_key: Some("C".to_owned()), start: Some(7), limit: Some(10_000) };
    assert_eq!(big.offset(), 7);
    assert_eq!(big.page_size(), 500);
}

#[test]
fn limits_take_defaults_and_caps() {
    assert_eq!(capped_limit(None, DEFAULT_RECENT_LIMIT, MAX_RECENT_LIMIT), 10);
    assert_eq!(capped_limit(Some(250), DEFAULT_RECENT_LIMIT, MAX_RECENT_LIMIT), 100);
    assert_eq!(capped_limit(Some(5), DEFAULT_RECENT_LIMIT, MAX_RECENT_LIMIT), 5);
    assert_eq!(limit_or(None, 50), 50);
    assert_eq!(limit_or(Some(3), 50), 3);
}

#[test]
fn duplicates_are_probed_by_nonempty_title() {
    assert_eq!(duplicate_probe(""), None);
    assert_eq!(duplicate_probe("A Title"), Some("A Title".to_owned()));
    assert_eq!(collections_for_new_item(vec!["X".to_owned()], Some("COL1".to_owned())), ["X", "COL1"]);
    assert!(collections_for_new_item(Vec::new(), None).is_empty());
}

#[test]
fn bibtex_export_needs_a_citation_key() {
    let citekeys = vec![("A".to_owned(), Some("smith2020".to_owned())), ("B".to_owned(), None)];
    assert_eq!(citation_key_for("A", &citekeys), Ok("smith2020".to_owned()));
    assert_eq!(
        citation_key_for("B", &citekeys),
        Err(ZoteroMcpError::BetterBibTeX("no citation key for item B".to_owned()))
    );
    assert!(citation_key_for("C", &citekeys).is_err());
}

#[test]
fn add_by_identifier_answers_duplicates_or_creates() {
    use_add_after_search();
}

fn use_add_after_search() {
    let existing = zotero_mcp_rs::args::add_after_search(Ok(Some("{\"key\":\"X\"}".to_owned())), Vec::new(), None);
    assert!(matches!(existing, zotero_mcp_rs::args::AddStep::Answer(j) if j == "{\"key\":\"X\"}"));
    let created = zotero_mcp_rs::args::add_after_search(Ok(None), vec!["A".to_owned()], Some("COL1".to_owned()));
    assert!(matches!(created, zotero_mcp_rs::args::AddStep::Create(c) if c == ["A", "COL1"]));
    let failed_search = zotero_mcp_rs::args::add_after_search(Err("down".to_owned()), Vec::new(), None);
    assert!(matches!(failed_search, zotero_mcp_rs::args::AddStep::Create(c) if c.is_empty()));
}
