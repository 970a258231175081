use zotero_mcp_rs::attachments::{resolve_pdf_after_children, resolve_pdf_after_item, resolve_pdf_start, PdfResolveStep};
use zotero_mcp_rs::attachments::locate_item_pdf;
use zotero_mcp_rs::error::ZoteroMcpError;
use zotero_mcp_rs::attachments::{
    accept_bridge_roots, enclosure_file_path, file_root_kind_from_name, file_url_to_path, find_pdf_path,
    linked_base_roots, pdf_path_for_item, resolve_attachment_pdf_path, resolve_linked_attachment_path,
    BridgePdfRoot, FileRootKind, ResolvedPdfPath,
};
use zotero_mcp_rs::items::{filter_notes, note_children, ItemType, LinkMode, ZoteroItem};

fn item(key: &str, item_type: ItemType) -> ZoteroItem {
    ZoteroItem {
        key: key.to_owned(),
        item_type,
        link_mode: None,
        path: None,
        content_type: None,
        enclosure_href: None,
        json: format!("{{\"key\":\"{key}\"}}"),
    }
}

fn imported_pdf(key: &str, href: &str) -> ZoteroItem {
    ZoteroItem {
        link_mode: Some(LinkMode::ImportedFile),
        content_type: Some("application/pdf".to_owned()),
        enclosure_href: Some(href.to_owned()),
        ..item(key, ItemType::Attachment)
    }
}

fn linked_pdf(key: &str, path: &str) -> ZoteroItem {
    ZoteroItem {
        link_mode: Some(LinkMode::LinkedFile),
        content_type: Some("application/pdf".to_owned()),
        path: Some(path.to_owned()),
        ..item(key, ItemType::Attachment)
    }
}

#[test]
fn file_url_to_path_parses_valid_file_url() {
    let href = "file:///tmp/document.pdf";

    let path = file_url_to_path(href);

    assert_eq!(path, Some("/tmp/document.pdf".to_owned()));
}

#[test]
fn file_url_to_path_returns_none_for_non_file_url() {
    let href = "https://example.com/document.pdf";

    let path = file_url_to_path(href);

    assert_eq!(path, None);
}

#[test]
fn resolve_linked_attachment_path_resolves_attachment_prefix() {
    let raw_path = "attachments:subfolder/paper.pdf";
    let bridge_roots = vec![BridgePdfRoot { kind: FileRootKind::ZoteroLinkedBase, path: "/zotero/base".to_owned() }];

    let resolved = resolve_linked_attachment_path(raw_path, &bridge_roots);

    assert_eq!(resolved, Some("/zotero/base/subfolder/paper.pdf".to_owned()));
}

#[test]
fn resolve_linked_attachment_path_returns_raw_path_when_unprefixed() {
    let raw_path = "subfolder/paper.pdf";
    let bridge_roots = vec![BridgePdfRoot { kind: FileRootKind::ZoteroLinkedBase, path: "/zotero/base".to_owned() }];

    let resolved = resolve_linked_attachment_path(raw_path, &bridge_roots);

    assert_eq!(resolved, Some("subfolder/paper.pdf".to_owned()));
}

#[test]
fn enclosure_file_path_extracts_path_from_imported_attachment() {
    let item = imported_pdf("PDF01", "file:///storage/PDF01/paper.pdf");

    let path = enclosure_file_path(&item);

    assert_eq!(path, Some("/storage/PDF01/paper.pdf".to_owned()));
}

#[test]
fn resolve_attachment_pdf_path_returns_none_for_non_attachment_item() {
    let item = item("ITEM01", ItemType::Other);

    let resolved = resolve_attachment_pdf_path(&item, &Vec::new());

    assert!(resolved.is_none());
}

#[test]
fn find_pdf_path_returns_first_valid_attachment() {
    let children = vec![item("NOTE01", ItemType::Note), imported_pdf("PDF01", "file:///tmp/paper.pdf")];

    let resolved = find_pdf_path(&children, &Vec::new());

    assert!(matches!(resolved, Some(ResolvedPdfPath::Trusted(path)) if path == "/tmp/paper.pdf"));
}

#[test]
fn file_root_kind_deserializes_kebab_case_and_identifies_pdf_roots() {
    let storage = file_root_kind_from_name("zotero-storage");
    let linked = file_root_kind_from_name("zotero-linked-base");
    let attanger = file_root_kind_from_name("attanger-dest");
    let other = file_root_kind_from_name("unrecognized-root");

    assert_eq!(storage, FileRootKind::ZoteroStorage);
    assert_eq!(linked, FileRootKind::ZoteroLinkedBase);
    assert_eq!(attanger, FileRootKind::AttangerDest);
    assert_eq!(other, FileRootKind::Other);

    assert_ne!(storage, FileRootKind::Other);
}

#[test]
fn bridge_pdf_roots_keep_root_kind_typed() {
    let roots = vec![
        BridgePdfRoot { kind: FileRootKind::ZoteroStorage, path: "/bridge/storage".to_owned() },
        BridgePdfRoot { kind: FileRootKind::Other, path: "/bridge/ignored".to_owned() },
    ];

    let linked_roots = linked_base_roots(&roots);

    assert!(linked_roots.is_empty());
}

#[test]
fn prefixed_path_without_linked_base_root_is_unresolved() {
    let roots = vec![BridgePdfRoot { kind: FileRootKind::ZoteroStorage, path: "/storage".to_owned() }];
    assert_eq!(resolve_linked_attachment_path("attachments:/x.pdf", &roots), None);
}

#[test]
fn leading_separators_after_prefix_are_dropped() {
    let roots = vec![BridgePdfRoot { kind: FileRootKind::ZoteroLinkedBase, path: "/base".to_owned() }];
    assert_eq!(resolve_linked_attachment_path("attachments:\\/a/b.pdf", &roots), Some("/base/a/b.pdf".to_owned()));
}

#[test]
fn linked_attachment_needs_a_root_check() {
    let roots = vec![BridgePdfRoot { kind: FileRootKind::ZoteroLinkedBase, path: "/base".to_owned() }];
    let resolved = resolve_attachment_pdf_path(&linked_pdf("L1", "attachments:paper.pdf"), &roots);
    assert!(matches!(resolved, Some(ResolvedPdfPath::NeedsRootCheck(p)) if p == "/base/paper.pdf"));
}

#[test]
fn non_pdf_attachments_are_skipped() {
    let mut html = linked_pdf("H1", "/tmp/page.html");
    html.link_mode = Some(LinkMode::LinkedUrl);
    html.content_type = Some("text/html".to_owned());
    let children = vec![html, imported_pdf("P2", "file:///tmp/second.pdf")];
    let resolved = find_pdf_path(&children, &Vec::new());
    assert_eq!(resolved.map(ResolvedPdfPath::into_path), Some("/tmp/second.pdf".to_owned()));
}

#[test]
fn bridge_roots_keep_known_kinds_with_paths() {
    let raw = vec![
        (FileRootKind::ZoteroStorage, "/s".to_owned()),
        (FileRootKind::Other, "/o".to_owned()),
        (FileRootKind::ZoteroLinkedBase, String::new()),
        (FileRootKind::AttangerDest, "/a".to_owned()),
    ];
    let kept = accept_bridge_roots(raw);
    let kinds: Vec<FileRootKind> = kept.iter().map(|r| r.kind).collect();
    assert_eq!(kinds, [FileRootKind::ZoteroStorage, FileRootKind::AttangerDest]);
}

#[test]
fn attachment_item_reports_its_stored_path() {
    let it = linked_pdf("L1", "/docs/paper.pdf");
    assert_eq!(pdf_path_for_item(&it, &Vec::new()), Some("/docs/paper.pdf".to_owned()));
}

#[test]
fn notes_are_filtered_in_order() {
    let children = vec![item("N1", ItemType::Note), item("A1", ItemType::Attachment), item("N2", ItemType::Note)];
    let notes = filter_notes(children);
    let keys: Vec<&str> = notes.iter().map(|n| n.key.as_str()).collect();
    assert_eq!(keys, ["N1", "N2"]);
    assert!(note_children(vec![item("A2", ItemType::Annotation)]).is_empty());
}

#[test]
fn bridge_url_drops_trailing_slashes() {
    assert_eq!(
        zotero_mcp_rs::attachments::bridge_file_roots_url("http://127.0.0.1:23119/better-notes//"),
        "http://127.0.0.1:23119/better-notes/file-roots"
    );
    assert_eq!(zotero_mcp_rs::attachments::bridge_file_roots_url(""), "/file-roots");
}

#[test]
fn item_key_locates_child_pdf_or_reports_missing() {
    let parent = item("PARENT1", ItemType::Other);
    let found = locate_item_pdf("PARENT1", &parent, Some(vec![imported_pdf("P1", "file:///tmp/a.pdf")]), &Vec::new());
    assert!(matches!(found, Ok(ResolvedPdfPath::Trusted(p)) if p == "/tmp/a.pdf"));
    let missing = locate_item_pdf("PARENT1", &parent, None, &Vec::new());
    assert_eq!(
        missing.err(),
        Some(ZoteroMcpError::NotFound("No PDF file path found for key: PARENT1".to_owned()))
    );
}

#[test]
fn pdf_requests_resolve_step_by_step() {
    assert!(matches!(resolve_pdf_start("/tmp/a.pdf", true), PdfResolveStep::CheckDirect(p) if p == "/tmp/a.pdf"));
    assert!(matches!(resolve_pdf_start("KEY1", false), PdfResolveStep::FetchItem(k) if k == "KEY1"));
    let roots = Vec::new();
    let trusted = resolve_pdf_after_item("A1", Ok(imported_pdf("A1", "file:///tmp/a.pdf")), &roots);
    assert!(matches!(trusted, PdfResolveStep::CheckTrusted(p) if p == "/tmp/a.pdf"));
    let parent = resolve_pdf_after_item("P1", Ok(item("P1", ItemType::Other)), &roots);
    assert!(matches!(parent, PdfResolveStep::FetchChildren(k) if k == "P1"));
    let lookup_failed = resolve_pdf_after_item("X", Err(ZoteroMcpError::NotFound("gone".to_owned())), &roots);
    assert!(matches!(lookup_failed, PdfResolveStep::Fail(ZoteroMcpError::NotFound(m)) if m == "gone"));
    let linked = resolve_pdf_after_children("P1", Some(vec![linked_pdf("L1", "/docs/b.pdf")]), &roots);
    assert!(matches!(linked, PdfResolveStep::CheckLinked(p) if p == "/docs/b.pdf"));
    let none = resolve_pdf_after_children("P1", None, &roots);
    assert!(matches!(none, PdfResolveStep::Fail(ZoteroMcpError::NotFound(m)) if m == "No PDF file path found for key: P1"));
}

#[test]
fn file_urls_with_non_utf8_paths_keep_a_path() {
    assert!(file_url_to_path("file:///tmp/%FF.pdf").is_some());
}

#[test]
fn file_urls_on_other_hosts_have_no_local_path() {
    assert_eq!(file_url_to_path("file://example.com/tmp/a.pdf"), None);
}
