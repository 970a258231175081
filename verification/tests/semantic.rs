use zotero_mcp_rs::semantic::{scan_decision, ScanDecision};
use zotero_mcp_rs::error::ZoteroMcpError;
use zotero_mcp_rs::semantic::{
    assemble_item_text, default_semantic_data_dir, indexable_text, is_unchanged, resolve_db_path,
    resolve_model_cache_dir, stale_keys, truncate_chars, IndexOutcome, IndexReport, Platform, MAX_INDEXABLE_CHARS,
};

#[test]
fn index_report_defaults_to_all_zeroes() {
    let report = IndexReport::default();
    assert_eq!(report.items_scanned, 0);
    assert_eq!(report.items_indexed, 0);
    assert_eq!(report.items_skipped_unchanged, 0);
    assert_eq!(report.items_skipped_empty, 0);
    assert_eq!(report.items_deleted, 0);
    assert_eq!(report.chunks_written, 0);
}

#[test]
fn report_counts_each_item_once() {
    let mut report = IndexReport::default();
    report.record(IndexOutcome::Indexed);
    report.record(IndexOutcome::SkippedUnchanged);
    report.record(IndexOutcome::SkippedEmpty);
    report.record(IndexOutcome::Indexed);
    report.record_deleted();
    report.record_chunks(5);
    assert_eq!(report.items_scanned, 4);
    assert_eq!(report.items_indexed, 2);
    assert_eq!(report.items_skipped_unchanged, 1);
    assert_eq!(report.items_skipped_empty, 1);
    assert_eq!(report.items_deleted, 1);
    assert_eq!(report.chunks_written, 5);
    assert_eq!(
        report.items_indexed + report.items_skipped_unchanged + report.items_skipped_empty,
        report.items_scanned
    );
}

#[test]
fn report_counts_saturate() {
    let mut report = IndexReport { chunks_written: usize::MAX - 1, ..IndexReport::default() };
    report.record_chunks(5);
    assert_eq!(report.chunks_written, usize::MAX);
}

#[test]
fn explicit_db_path_wins() {
    assert_eq!(resolve_db_path(Some("/x/index.sqlite"), Some("/data")).unwrap(), "/x/index.sqlite");
}

#[test]
fn default_db_path_is_in_the_data_dir() {
    assert_eq!(resolve_db_path(None, Some("/data/zotero-mcp-rs")).unwrap(), "/data/zotero-mcp-rs/embeddings.sqlite");
}

#[test]
fn missing_data_dir_is_a_local_db_error() {
    assert_eq!(
        resolve_db_path(None, None),
        Err(ZoteroMcpError::LocalDb(
            "Could not determine a data directory for the semantic search index; set ZOTERO_SEMANTIC_DB_PATH"
                .to_owned()
        ))
    );
}

#[test]
fn model_cache_sits_beside_the_index() {
    assert_eq!(resolve_model_cache_dir("/data/embeddings.sqlite"), "/data/models");
    assert_eq!(resolve_model_cache_dir("embeddings.sqlite"), "models");
    assert_eq!(resolve_model_cache_dir("/"), "models");
}

#[test]
fn data_dir_prefers_appdata_then_home() {
    assert_eq!(
        default_semantic_data_dir(Some("C:/AppData"), Some("/home/a"), Platform::Linux),
        Some("C:/AppData/zotero-mcp-rs".to_owned())
    );
    assert_eq!(
        default_semantic_data_dir(None, Some("/home/a"), Platform::Linux),
        Some("/home/a/.local/share/zotero-mcp-rs".to_owned())
    );
    assert_eq!(
        default_semantic_data_dir(None, Some("/Users/a"), Platform::MacOs),
        Some("/Users/a/Library/Application Support/zotero-mcp-rs".to_owned())
    );
    assert_eq!(default_semantic_data_dir(None, Some("/home/a"), Platform::Other), None);
    assert_eq!(default_semantic_data_dir(None, None, Platform::Linux), None);
}

#[test]
fn unchanged_needs_a_stored_equal_date() {
    assert!(is_unchanged(Some("2024-01-01"), Some("2024-01-01")));
    assert!(!is_unchanged(Some("2024-01-01"), Some("2024-02-01")));
    assert!(!is_unchanged(None, None));
    assert!(!is_unchanged(Some("2024-01-01"), None));
}

#[test]
fn stale_keys_are_those_no_longer_in_the_library() {
    let stored = vec!["A".to_owned(), "B".to_owned(), "C".to_owned()];
    let current = vec!["C".to_owned(), "A".to_owned()];
    assert_eq!(stale_keys(&stored, &current), ["B"]);
    assert!(stale_keys(&stored, &stored).is_empty());
}

#[test]
fn item_text_joins_nonblank_parts_as_paragraphs() {
    assert_eq!(
        assemble_item_text(Some("A Paper"), Some("An abstract."), Some("Body")),
        "A Paper\n\nAn abstract.\n\nBody"
    );
    assert_eq!(assemble_item_text(Some("  "), Some("Only abstract"), None), "Only abstract");
    assert_eq!(assemble_item_text(None, None, None), "");
}

#[test]
fn indexable_text_is_cut_and_blank_text_is_skipped() {
    assert_eq!(indexable_text(Some(" \n"), None, Some("\t")), None);
    let long = "x".repeat(MAX_INDEXABLE_CHARS + 10);
    let cut = indexable_text(Some(&long), None, None).unwrap();
    assert_eq!(cut.chars().count(), MAX_INDEXABLE_CHARS);
}

#[test]
fn truncation_counts_characters() {
    assert_eq!(truncate_chars("héllo", 2), "hé");
    assert_eq!(truncate_chars("hi", 5), "hi");
}

#[test]
fn encode_decode_round_trips_including_negative_and_zero() {
    let original: Vec<f32> = vec![0.0, -1.5, 3.25, -0.000_1, 42.0];
    let words: Vec<u32> = original.iter().map(|v| v.to_bits()).collect();
    let encoded = zotero_mcp_rs::semantic::encode_words(&words);
    let decoded = zotero_mcp_rs::semantic::decode_words(&encoded).unwrap();
    let values: Vec<f32> = decoded.into_iter().map(f32::from_bits).collect();
    assert_eq!(values, original);
}

#[test]
fn decode_rejects_non_multiple_of_four_length() {
    let bytes = vec![0_u8, 1, 2];
    assert!(zotero_mcp_rs::semantic::decode_words(&bytes).is_err());
}

#[test]
fn stored_words_are_little_endian() {
    assert_eq!(zotero_mcp_rs::semantic::encode_words(&vec![0x0403_0201, 0xff]), [1, 2, 3, 4, 0xff, 0, 0, 0]);
    assert_eq!(zotero_mcp_rs::semantic::decode_words(&[1, 2, 3, 4]).unwrap(), [0x0403_0201]);
    assert_eq!(
        zotero_mcp_rs::semantic::decode_words(&[1]),
        Err(ZoteroMcpError::Embedding("corrupt embedding blob: length is not a multiple of 4".to_owned()))
    );
}

#[test]
fn scan_skips_trash_and_unchanged_items_unless_forced() {
    assert_eq!(scan_decision(true, true, false, None, None), ScanDecision::NotScanned);
    assert_eq!(scan_decision(false, false, true, None, None), ScanDecision::NotScanned);
    assert_eq!(scan_decision(false, true, false, Some("d1"), Some("d1")), ScanDecision::Unchanged);
    assert_eq!(scan_decision(false, true, true, Some("d1"), Some("d1")), ScanDecision::Index);
    assert_eq!(scan_decision(false, true, false, Some("d1"), Some("d2")), ScanDecision::Index);
    assert_eq!(scan_decision(false, true, false, None, Some("d2")), ScanDecision::Index);
}
