use zotero_mcp_rs::flat_tools::{
    note_items, note_output, path_lookup_after_children, path_lookup_after_item, read_pages_after_children,
    read_pages_after_item, read_pages_start, wants_bibtex, FlatItem, PdfStep,
};

fn flat(key: &str, item_type: &str, path: Option<&str>, content_type: Option<&str>) -> FlatItem {
    FlatItem {
        key: key.to_owned(),
        item_type: item_type.to_owned(),
        path: path.map(str::to_owned),
        content_type: content_type.map(str::to_owned),
        note: None,
    }
}

fn found(step: PdfStep) -> Option<String> {
    match step {
        PdfStep::Found(p) => Some(p),
        _ => None,
    }
}

fn failed(step: PdfStep) -> Option<String> {
    match step {
        PdfStep::Fail(m) => Some(m),
        _ => None,
    }
}

#[test]
fn path_lookup_returns_an_attachments_own_path() {
    let step = path_lookup_after_item("ATT1", Ok(flat("ATT1", "attachment", Some("/tmp/file.pdf"), None)));
    assert_eq!(found(step), Some("/tmp/file.pdf".to_owned()));
}

#[test]
fn path_lookup_finds_pdf_child_of_parent() {
    let step = path_lookup_after_item("PARENT1", Ok(flat("PARENT1", "journalArticle", None, None)));
    assert!(matches!(step, PdfStep::FetchChildren(k) if k == "PARENT1"));
    let children = vec![
        flat("NOTE1", "note", None, None),
        flat("ATT2", "attachment", Some("/tmp/child.pdf"), Some("application/pdf")),
    ];
    assert_eq!(found(path_lookup_after_children(Ok(children))), Some("/tmp/child.pdf".to_owned()));
}

#[test]
fn path_lookup_without_pdf_child_fails() {
    let children = vec![flat("NOTE1", "note", None, None)];
    assert_eq!(failed(path_lookup_after_children(Ok(children))), Some("No local PDF path found for item".to_owned()));
}

#[test]
fn lookup_errors_are_passed_on() {
    let step = path_lookup_after_item("MISSING", Err("Item MISSING not found".to_owned()));
    assert_eq!(failed(step), Some("Item MISSING not found".to_owned()));
    assert_eq!(failed(read_pages_after_children(Err("down".to_owned()))), Some("down".to_owned()));
}

#[test]
fn absolute_paths_skip_the_item_lookup() {
    assert_eq!(found(read_pages_start("/nonexistent/direct.pdf")), Some("/nonexistent/direct.pdf".to_owned()));
    assert!(matches!(read_pages_start("ATT1"), PdfStep::FetchItem(k) if k == "ATT1"));
}

#[test]
fn page_reader_resolves_attachment_key_to_its_path() {
    let step = read_pages_after_item("ATT1", Ok(flat("ATT1", "attachment", Some("/nonexistent/att.pdf"), None)));
    assert_eq!(found(step), Some("/nonexistent/att.pdf".to_owned()));
}

#[test]
fn page_reader_matches_pdf_suffix_case_insensitively() {
    let children = vec![
        flat("ATT0", "attachment", Some("/x/notes.txt"), None),
        flat("ATT3", "attachment", Some("/nonexistent/child.PDF"), None),
    ];
    assert_eq!(found(read_pages_after_children(Ok(children))), Some("/nonexistent/child.PDF".to_owned()));
}

#[test]
fn page_reader_without_pdf_child_fails() {
    let children = vec![flat("NOTE1", "note", None, None)];
    assert_eq!(
        failed(read_pages_after_children(Ok(children))),
        Some("PDF attachment path not found for item".to_owned())
    );
}

#[test]
fn bibtex_format_is_case_insensitive_and_json_is_default() {
    assert!(wants_bibtex(Some("bibtex")));
    assert!(wants_bibtex(Some("BibTeX")));
    assert!(!wants_bibtex(Some("json")));
    assert!(!wants_bibtex(None));
}

#[test]
fn notes_fall_back_to_html_without_bridge() {
    let mut note = flat("N1", "note", None, None);
    note.note = Some("<p>Hi</p>".to_owned());
    let children = vec![note, flat("A1", "attachment", Some("/a.pdf"), None)];
    let notes = note_items(children);
    assert_eq!(notes.len(), 1);
    let out = note_output(notes.into_iter().next().unwrap(), None);
    assert_eq!(out.key, "N1");
    assert_eq!(out.html, "<p>Hi</p>");
    assert_eq!(out.markdown, "<p>Hi</p>");
}

#[test]
fn notes_use_bridge_markdown_when_available() {
    let out = note_output(flat("N2", "note", None, None), Some("# Title".to_owned()));
    assert_eq!(out.html, "");
    assert_eq!(out.markdown, "# Title");
}
