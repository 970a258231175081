use zotero_mcp_rs::index_run::{summarize_scan, work_of_chunks, ItemWork, ScanEntry};

fn entry(key: &str, date: &str, stored: Option<&str>, work: ItemWork) -> ScanEntry {
    ScanEntry {
        key: key.to_owned(),
        deleted: false,
        indexable: true,
        date_modified: Some(date.to_owned()),
        stored_date: stored.map(str::to_owned),
        work,
    }
}

#[test]
fn first_scan_indexes_new_items() {
    let entries = vec![entry("ITEM1", "2024-01-01", None, ItemWork::Indexed(1))];
    let summary = summarize_scan(&entries, &Vec::new(), false);
    assert_eq!(summary.report.items_scanned, 1);
    assert_eq!(summary.report.items_indexed, 1);
    assert_eq!(summary.report.items_skipped_unchanged, 0);
    assert!(summary.report.chunks_written >= 1);
    assert!(summary.to_delete.is_empty());
}

#[test]
fn second_scan_skips_unchanged_items() {
    let entries = vec![entry("ITEM1", "2024-01-01", Some("2024-01-01"), ItemWork::NotRun)];
    let summary = summarize_scan(&entries, &vec!["ITEM1".to_owned()], false);
    assert_eq!(summary.report.items_skipped_unchanged, 1);
    assert_eq!(summary.report.items_indexed, 0);
    assert_eq!(summary.report.items_deleted, 0);
    assert_eq!(summary.report.chunks_written, 0);
}

#[test]
fn forced_scan_reindexes_unchanged_items() {
    let entries = vec![entry("ITEM1", "2024-01-01", Some("2024-01-01"), ItemWork::Indexed(3))];
    let summary = summarize_scan(&entries, &vec!["ITEM1".to_owned()], true);
    assert_eq!(summary.report.items_indexed, 1);
    assert_eq!(summary.report.chunks_written, 3);
}

#[test]
fn scan_removes_items_no_longer_in_library() {
    let summary = summarize_scan(&Vec::new(), &vec!["ITEM1".to_owned()], false);
    assert_eq!(summary.report.items_deleted, 1);
    assert_eq!(summary.to_delete, ["ITEM1"]);
}

#[test]
fn scan_counts_items_without_text_as_empty() {
    let entries = vec![entry("ITEM1", "2024-01-01", None, work_of_chunks(0))];
    let summary = summarize_scan(&entries, &Vec::new(), false);
    assert_eq!(summary.report.items_skipped_empty, 1);
    assert_eq!(summary.report.items_indexed, 0);
}

#[test]
fn trashed_and_unindexed_items_are_not_counted_and_lose_their_entries() {
    let mut trashed = entry("T", "d", Some("d"), ItemWork::NotRun);
    trashed.deleted = true;
    let mut note = entry("N", "d", Some("d"), ItemWork::NotRun);
    note.indexable = false;
    let summary = summarize_scan(&vec![trashed, note], &vec!["T".to_owned(), "N".to_owned()], false);
    assert_eq!(summary.report.items_scanned, 0);
    assert_eq!(summary.report.items_deleted, 2);
}

#[test]
fn chunk_counts_decide_the_work() {
    assert_eq!(work_of_chunks(0), ItemWork::Empty);
    assert_eq!(work_of_chunks(4), ItemWork::Indexed(4));
}
