use zotero_mcp_rs::catalog::{
    capabilities, discover_capabilities, is_visible_tool, tool_visibility, visible_tool_names, CapabilityDomain,
    CapabilityGate, DiscoverArgs, ToolVisibility,
};
use zotero_mcp_rs::security::SecurityConfig;
use zotero_mcp_rs::state::{AppEnv, AppState, ToolExposureMode};

const REGISTERED_TOOLS: &[&str] = &[
    "better_bibtex",
    "better_bibtex_autoexport_add",
    "better_bibtex_export_items",
    "better_bibtex_format_bibliography",
    "better_bibtex_get_citekeys",
    "better_bibtex_pandoc_filter",
    "better_bibtex_regenerate_citekeys",
    "better_bibtex_scan_aux",
    "better_bibtex_search",
    "better_notes",
    "better_notes_export",
    "better_notes_from_markdown",
    "better_notes_get_relations",
    "better_notes_get_tree",
    "better_notes_run_template",
    "fetch",
    "search",
    "zotero_add_by_identifier",
    "zotero_add_item_relation",
    "zotero_advanced_search",
    "zotero_attach_file",
    "zotero_batch_update_tags",
    "zotero_collections",
    "zotero_collections_write",
    "zotero_create_annotation",
    "zotero_create_collection",
    "zotero_create_note",
    "zotero_delete_collection",
    "zotero_delete_item",
    "zotero_delete_tags",
    "zotero_discover",
    "zotero_find_duplicates",
    "zotero_fulltext_search",
    "zotero_get_collection_items",
    "zotero_get_item",
    "zotero_get_item_children",
    "zotero_get_item_fulltext",
    "zotero_get_item_metadata",
    "zotero_get_notes",
    "zotero_get_pdf_outline",
    "zotero_get_pdf_path",
    "zotero_get_recent",
    "zotero_get_related_items",
    "zotero_get_unfiled_items",
    "zotero_items",
    "zotero_items_write",
    "zotero_library_coverage",
    "zotero_list_tags",
    "zotero_manage_collections",
    "zotero_notes",
    "zotero_notes_write",
    "zotero_pdf",
    "zotero_read_pdf_pages",
    "zotero_relations",
    "zotero_relations_write",
    "zotero_remove_item_relation",
    "zotero_rename_tag",
    "zotero_restore_item",
    "zotero_search",
    "zotero_search_by_citation_key",
    "zotero_search_by_tag",
    "zotero_search_collections",
    "zotero_search_items",
    "zotero_search_notes_annotations",
    "zotero_semantic_search",
    "zotero_sqlite_search",
    "zotero_status",
    "zotero_tags",
    "zotero_tags_write",
    "zotero_trash_item",
    "zotero_update_collection",
    "zotero_update_item",
];

fn base_state() -> AppState {
    let env = AppEnv {
        zotero_api_url: None,
        better_bibtex_url: None,
        better_notes_url: None,
        crossref_url: None,
        semantic_scholar_url: None,
        open_library_url: None,
        write_enabled: None,
        sqlite_access: None,
        tool_mode: None,
    };
    AppState::from_settings(&env, SecurityConfig::default())
}

fn visible_names(state: &AppState) -> Vec<String> {
    let registered: Vec<String> = REGISTERED_TOOLS.iter().map(|n| (*n).to_owned()).collect();
    let mut names = visible_tool_names(state, &registered);
    names.sort();
    names
}

fn discover_requires_write(state: &AppState, include_disabled: Option<bool>) -> bool {
    let args = DiscoverArgs { query: None, domain: None, include_disabled };
    discover_capabilities(state, &args)
        .iter()
        .any(|capability| capability.requires.contains(&CapabilityGate::WriteEnabled))
}

#[test]
fn all_mode_keeps_registered_legacy_tools() {
    let mut state = base_state();
    state.tool_mode = ToolExposureMode::All;

    let names = visible_names(&state);

    assert!(names.contains(&"zotero_get_item".to_owned()));
    assert!(names.contains(&"zotero_create_note".to_owned()));
    assert!(names.contains(&"zotero_fulltext_search".to_owned()));
}

#[test]
fn gated_mode_hides_disabled_write_and_sqlite_tools() {
    let mut state = base_state();
    state.tool_mode = ToolExposureMode::Gated;
    state.write_enabled = false;
    state.sqlite_access = false;

    let names = visible_names(&state);

    assert!(names.contains(&"zotero_get_item".to_owned()));
    assert!(!names.contains(&"zotero_create_note".to_owned()));
    assert!(!names.contains(&"zotero_fulltext_search".to_owned()));
    assert!(!names.contains(&"zotero_notes_write".to_owned()));
}

#[test]
fn compact_mode_lists_base_grouped_tools_only() {
    let mut state = base_state();
    state.tool_mode = ToolExposureMode::Compact;
    state.write_enabled = false;
    state.sqlite_access = false;

    let names = visible_names(&state);

    assert_eq!(
        names,
        [
            "better_bibtex",
            "better_notes",
            "fetch",
            "search",
            "zotero_collections",
            "zotero_discover",
            "zotero_items",
            "zotero_notes",
            "zotero_pdf",
            "zotero_relations",
            "zotero_search",
            "zotero_status",
            "zotero_tags",
        ]
    );
    assert!(!names.contains(&"zotero_get_item".to_owned()));
    assert!(!names.contains(&"zotero_create_note".to_owned()));
    assert!(!names.contains(&"zotero_fulltext_search".to_owned()));
}

#[test]
fn compact_mode_adds_sqlite_group_when_enabled() {
    let mut state = base_state();
    state.tool_mode = ToolExposureMode::Compact;
    state.sqlite_access = true;

    let names = visible_names(&state);

    assert!(names.contains(&"zotero_sqlite_search".to_owned()));
    assert!(!names.contains(&"zotero_fulltext_search".to_owned()));
}

#[test]
fn compact_mode_adds_write_groups_when_enabled() {
    let mut state = base_state();
    state.tool_mode = ToolExposureMode::Compact;
    state.write_enabled = true;

    let names = visible_names(&state);

    assert!(names.contains(&"zotero_notes_write".to_owned()));
    assert!(names.contains(&"zotero_items_write".to_owned()));
    assert!(!names.contains(&"zotero_create_note".to_owned()));
}

#[test]
fn discover_omits_write_capabilities_by_default() {
    let mut state = base_state();
    state.write_enabled = false;
    state.sqlite_access = false;

    assert!(!discover_requires_write(&state, None));
}

#[test]
fn discover_can_include_disabled_capabilities() {
    let mut state = base_state();
    state.write_enabled = false;
    state.sqlite_access = false;

    assert!(discover_requires_write(&state, Some(true)));
}

#[test]
fn tool_classes_follow_their_names() {
    assert_eq!(tool_visibility("zotero_search"), ToolVisibility::CompactUngated);
    assert_eq!(tool_visibility("zotero_sqlite_search"), ToolVisibility::CompactSqlite);
    assert_eq!(tool_visibility("zotero_tags_write"), ToolVisibility::CompactWrite);
    assert_eq!(tool_visibility("zotero_fulltext_search"), ToolVisibility::LegacySqlite);
    assert_eq!(tool_visibility("zotero_delete_item"), ToolVisibility::LegacyWrite);
    assert_eq!(tool_visibility("zotero_get_item"), ToolVisibility::LegacyUngated);
}

#[test]
fn gated_mode_opens_with_its_gates() {
    let mut state = base_state();
    state.tool_mode = ToolExposureMode::Gated;
    state.write_enabled = true;
    state.sqlite_access = true;
    assert!(is_visible_tool(&state, "zotero_create_note"));
    assert!(is_visible_tool(&state, "zotero_fulltext_search"));
    state.tool_mode = ToolExposureMode::Compact;
    assert!(!is_visible_tool(&state, "zotero_create_note"));
}

#[test]
fn discovery_filters_by_domain_and_query() {
    let mut state = base_state();
    state.write_enabled = true;
    state.sqlite_access = true;
    let all = capabilities();
    let sqlite_count = all.iter().filter(|c| c.domain == CapabilityDomain::Sqlite).count();
    let by_domain = discover_capabilities(
        &state,
        &DiscoverArgs { query: None, domain: Some(CapabilityDomain::Sqlite), include_disabled: None },
    );
    assert_eq!(by_domain.len(), sqlite_count);
    assert!(by_domain.iter().all(|c| c.domain == CapabilityDomain::Sqlite));
    let nothing = discover_capabilities(
        &state,
        &DiscoverArgs { query: Some("NO-SUCH-CAPABILITY-XYZ".to_owned()), domain: None, include_disabled: None },
    );
    assert!(nothing.is_empty());
    let everything = discover_capabilities(&state, &DiscoverArgs { query: None, domain: None, include_disabled: None });
    assert_eq!(everything.len(), all.len());
}

#[test]
fn get_info_instructions_describe_compact_navigation() {
    let instructions = zotero_mcp_rs::catalog::server_instructions();

    assert!(instructions.contains("zotero_discover"));
    assert!(instructions.contains("zotero://items/{item_key}"));
    assert!(instructions.contains("ZOTERO_WRITE_ENABLED"));
}
