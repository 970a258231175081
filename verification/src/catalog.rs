//! Which tools the server lists, and the capability catalog behind the
//! discovery tool.

use vstd::prelude::*;

use crate::security::opt_view;
use crate::state::{AppState, ToolExposureMode};
use crate::text::{contains_chars, contains_seq, chars_of, std_to_lowercase, str_eq, to_lowercase};

verus! {

/// How a tool is exposed: grouped router or legacy single tool, and which
/// permission gate, if any, guards it.
#[derive(Clone, Copy, Debug, PartialEq, Eq, Structural)]
pub enum ToolVisibility {
    /// A grouped router with no gate.
    CompactUngated,
    /// A grouped router behind the SQLite gate.
    CompactSqlite,
    /// A grouped router behind the write gate.
    CompactWrite,
    /// A legacy tool with no gate.
    LegacyUngated,
    /// A legacy tool behind the SQLite gate.
    LegacySqlite,
    /// A legacy tool behind the write gate.
    LegacyWrite,
}

/// The exposure class of the tool called `name`.
pub open spec fn tool_visibility_spec(name: Seq<char>) -> ToolVisibility {
    if name == "zotero_discover"@
        || name == "zotero_status"@
        || name == "zotero_search"@
        || name == "zotero_pdf"@
        || name == "zotero_notes"@
        || name == "zotero_collections"@
        || name == "zotero_items"@
        || name == "zotero_tags"@
        || name == "zotero_relations"@
        || name == "better_bibtex"@
        || name == "better_notes"@
        || name == "search"@
        || name == "fetch"@ {
        ToolVisibility::CompactUngated
    } else if name == "zotero_sqlite_search"@ {
        ToolVisibility::CompactSqlite
    } else if name == "zotero_notes_write"@
        || name == "zotero_collections_write"@
        || name == "zotero_items_write"@
        || name == "zotero_tags_write"@
        || name == "zotero_relations_write"@ {
        ToolVisibility::CompactWrite
    } else if name == "zotero_fulltext_search"@
        || name == "zotero_search_notes_annotations"@ {
        ToolVisibility::LegacySqlite
    } else if name == "zotero_create_note"@
        || name == "zotero_create_collection"@
        || name == "zotero_manage_collections"@
        || name == "zotero_update_item"@
        || name == "zotero_attach_file"@
        || name == "zotero_batch_update_tags"@
        || name == "zotero_add_item_relation"@
        || name == "zotero_remove_item_relation"@
        || name == "zotero_delete_item"@
        || name == "zotero_trash_item"@
        || name == "zotero_restore_item"@
        || name == "zotero_delete_collection"@
        || name == "zotero_create_annotation"@
        || name == "zotero_add_by_identifier"@
        || name == "zotero_update_collection"@
        || name == "zotero_rename_tag"@
        || name == "zotero_delete_tags"@
        || name == "better_bibtex_regenerate_citekeys"@
        || name == "better_bibtex_autoexport_add"@ {
        ToolVisibility::LegacyWrite
    } else {
        ToolVisibility::LegacyUngated
    }
}

/// The exposure class of the tool called `name`; unknown names are
/// ungated legacy tools.
pub fn tool_visibility(name: &str) -> (r: ToolVisibility)
    ensures
        r == tool_visibility_spec(name@),
{
    if str_eq(name, "zotero_discover")
        || str_eq(name, "zotero_status")
        || str_eq(name, "zotero_search")
        || str_eq(name, "zotero_pdf")
        || str_eq(name, "zotero_notes")
        || str_eq(name, "zotero_collections")
        || str_eq(name, "zotero_items")
        || str_eq(name, "zotero_tags")
        || str_eq(name, "zotero_relations")
        || str_eq(name, "better_bibtex")
        || str_eq(name, "better_notes")
        || str_eq(name, "search")
        || str_eq(name, "fetch") {
        ToolVisibility::CompactUngated
    } else if str_eq(name, "zotero_sqlite_search") {
        ToolVisibility::CompactSqlite
    } else if str_eq(name, "zotero_notes_write")
        || str_eq(name, "zotero_collections_write")
        || str_eq(name, "zotero_items_write")
        || str_eq(name, "zotero_tags_write")
        || str_eq(name, "zotero_relations_write") {
        ToolVisibility::CompactWrite
    } else if str_eq(name, "zotero_fulltext_search")
        || str_eq(name, "zotero_search_notes_annotations") {
        ToolVisibility::LegacySqlite
    } else if str_eq(name, "zotero_create_note")
        || str_eq(name, "zotero_create_collection")
        || str_eq(name, "zotero_manage_collections")
        || str_eq(name, "zotero_update_item")
        || str_eq(name, "zotero_attach_file")
        || str_eq(name, "zotero_batch_update_tags")
        || str_eq(name, "zotero_add_item_relation")
        || str_eq(name, "zotero_remove_item_relation")
        || str_eq(name, "zotero_delete_item")
        || str_eq(name, "zotero_trash_item")
        || str_eq(name, "zotero_restore_item")
        || str_eq(name, "zotero_delete_collection")
        || str_eq(name, "zotero_create_annotation")
        || str_eq(name, "zotero_add_by_identifier")
        || str_eq(name, "zotero_update_collection")
        || str_eq(name, "zotero_rename_tag")
        || str_eq(name, "zotero_delete_tags")
        || str_eq(name, "better_bibtex_regenerate_citekeys")
        || str_eq(name, "better_bibtex_autoexport_add") {
        ToolVisibility::LegacyWrite
    } else {
        ToolVisibility::LegacyUngated
    }
}

/// Visible in compact mode: ungated grouped routers, and gated ones whose
/// gate is open; legacy tools never.
pub open spec fn compact_visible_spec(v: ToolVisibility, write_enabled: bool, sqlite_access: bool) -> bool {
    match v {
        ToolVisibility::CompactUngated => true,
        ToolVisibility::CompactSqlite => sqlite_access,
        ToolVisibility::CompactWrite => write_enabled,
        _ => false,
    }
}

/// Visible in gated mode: every tool whose gate is open.
pub open spec fn gated_visible_spec(v: ToolVisibility, write_enabled: bool, sqlite_access: bool) -> bool {
    match v {
        ToolVisibility::CompactSqlite | ToolVisibility::LegacySqlite => sqlite_access,
        ToolVisibility::CompactWrite | ToolVisibility::LegacyWrite => write_enabled,
        _ => true,
    }
}

impl ToolVisibility {
    /// Whether a tool of this class is listed in compact mode.
    pub fn is_compact_visible(self, state: &AppState) -> (r: bool)
        ensures
            r == compact_visible_spec(self, state.write_enabled, state.sqlite_access),
    {
        match self {
            ToolVisibility::CompactUngated => true,
            ToolVisibility::CompactSqlite => state.sqlite_access,
            ToolVisibility::CompactWrite => state.write_enabled,
            ToolVisibility::LegacyUngated | ToolVisibility::LegacySqlite | ToolVisibility::LegacyWrite => false,
        }
    }

    /// Whether a tool of this class is listed in gated mode.
    pub fn is_gated_visible(self, state: &AppState) -> (r: bool)
        ensures
            r == gated_visible_spec(self, state.write_enabled, state.sqlite_access),
    {
        match self {
            ToolVisibility::CompactSqlite | ToolVisibility::LegacySqlite => state.sqlite_access,
            ToolVisibility::CompactWrite | ToolVisibility::LegacyWrite => state.write_enabled,
            ToolVisibility::CompactUngated | ToolVisibility::LegacyUngated => true,
        }
    }
}

/// Whether the tool called `name` is listed under the state's exposure
/// mode.
pub open spec fn tool_listed_spec(mode: ToolExposureMode, write_enabled: bool, sqlite_access: bool, name: Seq<char>) -> bool {
    match mode {
        ToolExposureMode::All => true,
        ToolExposureMode::Gated => gated_visible_spec(tool_visibility_spec(name), write_enabled, sqlite_access),
        ToolExposureMode::Compact => compact_visible_spec(tool_visibility_spec(name), write_enabled, sqlite_access),
    }
}

/// Whether the tool called `name` is listed for `state`.
pub fn is_visible_tool(state: &AppState, name: &str) -> (r: bool)
    ensures
        r == tool_listed_spec(state.tool_mode, state.write_enabled, state.sqlite_access, name@),
{
    match state.tool_mode {
        ToolExposureMode::All => true,
        ToolExposureMode::Gated => tool_visibility(name).is_gated_visible(state),
        ToolExposureMode::Compact => tool_visibility(name).is_compact_visible(state),
    }
}

/// The names among `names` that `state` lists, in order.
pub fn visible_tool_names(state: &AppState, names: &Vec<String>) -> (r: Vec<String>)
    ensures
        r@.map_values(|s: String| s@) == names@.map_values(|s: String| s@).filter(
            |n: Seq<char>| tool_listed_spec(state.tool_mode, state.write_enabled, state.sqlite_access, n),
        ),
{
    let ghost pred = |n: Seq<char>| tool_listed_spec(state.tool_mode, state.write_enabled, state.sqlite_access, n);
    let mut out: Vec<String> = Vec::new();
    let mut i: usize = 0;
    while i < names.len()
        invariant
            0 <= i <= names.len(),
            pred == (|n: Seq<char>| tool_listed_spec(state.tool_mode, state.write_enabled, state.sqlite_access, n)),
            out@.map_values(|s: String| s@) == names@.take(i as int).map_values(|s: String| s@).filter(pred),
        decreases names.len() - i,
    {
        proof {
            reveal(Seq::filter);
            assert(names@.take(i + 1).map_values(|s: String| s@).drop_last() =~= names@.take(i as int).map_values(|s: String| s@));
            assert(names@.take(i + 1).map_values(|s: String| s@).last() == names@[i as int]@);
        }
        let ghost before = out@;
        if is_visible_tool(state, names[i].as_str()) {
            out.push(names[i].clone());
            assert(out@.map_values(|s: String| s@) =~= before.map_values(|s: String| s@).push(names@[i as int]@));
        }
        i = i + 1;
    }
    assert(names@.take(names.len() as int) =~= names@);
    out
}

/// The tools that change the Zotero library: the grouped write routers and
/// the legacy tools that create, update, attach, relate, delete, trash,
/// restore, rename or export.
pub open spec fn library_write_tools() -> Seq<Seq<char>> {
    seq![
        "zotero_notes_write"@,
        "zotero_collections_write"@,
        "zotero_items_write"@,
        "zotero_tags_write"@,
        "zotero_relations_write"@,
        "zotero_create_note"@,
        "zotero_create_collection"@,
        "zotero_manage_collections"@,
        "zotero_update_item"@,
        "zotero_attach_file"@,
        "zotero_batch_update_tags"@,
        "zotero_add_item_relation"@,
        "zotero_remove_item_relation"@,
        "zotero_delete_item"@,
        "zotero_trash_item"@,
        "zotero_restore_item"@,
        "zotero_delete_collection"@,
        "zotero_create_annotation"@,
        "zotero_add_by_identifier"@,
        "zotero_update_collection"@,
        "zotero_rename_tag"@,
        "zotero_delete_tags"@,
        "better_bibtex_regenerate_citekeys"@,
        "better_bibtex_autoexport_add"@,
    ]
}

/// Every tool that changes the library sits behind the write gate, so with
/// writes disabled neither gated nor compact mode lists any of them.
pub proof fn law_library_writes_sit_behind_the_write_gate(mode: ToolExposureMode, write_enabled: bool, sqlite_access: bool, i: int)
    requires
        0 <= i < library_write_tools().len(),
    ensures
        tool_visibility_spec(library_write_tools()[i]) == ToolVisibility::CompactWrite
            || tool_visibility_spec(library_write_tools()[i]) == ToolVisibility::LegacyWrite,
        (!write_enabled && mode != ToolExposureMode::All) ==> !tool_listed_spec(mode, write_enabled, sqlite_access, library_write_tools()[i]),
{
    reveal_strlit("zotero_discover");
    reveal_strlit("zotero_status");
    reveal_strlit("zotero_search");
    reveal_strlit("zotero_pdf");
    reveal_strlit("zotero_notes");
    reveal_strlit("zotero_collections");
    reveal_strlit("zotero_items");
    reveal_strlit("zotero_tags");
    reveal_strlit("zotero_relations");
    reveal_strlit("better_bibtex");
    reveal_strlit("better_notes");
    reveal_strlit("search");
    reveal_strlit("fetch");
    reveal_strlit("zotero_sqlite_search");
    reveal_strlit("zotero_notes_write");
    reveal_strlit("zotero_collections_write");
    reveal_strlit("zotero_items_write");
    reveal_strlit("zotero_tags_write");
    reveal_strlit("zotero_relations_write");
    reveal_strlit("zotero_fulltext_search");
    reveal_strlit("zotero_search_notes_annotations");
    reveal_strlit("zotero_create_note");
    reveal_strlit("zotero_create_collection");
    reveal_strlit("zotero_manage_collections");
    reveal_strlit("zotero_update_item");
    reveal_strlit("zotero_attach_file");
    reveal_strlit("zotero_batch_update_tags");
    reveal_strlit("zotero_add_item_relation");
    reveal_strlit("zotero_remove_item_relation");
    reveal_strlit("zotero_delete_item");
    reveal_strlit("zotero_trash_item");
    reveal_strlit("zotero_restore_item");
    reveal_strlit("zotero_delete_collection");
    reveal_strlit("zotero_create_annotation");
    reveal_strlit("zotero_add_by_identifier");
    reveal_strlit("zotero_update_collection");
    reveal_strlit("zotero_rename_tag");
    reveal_strlit("zotero_delete_tags");
    reveal_strlit("better_bibtex_regenerate_citekeys");
    reveal_strlit("better_bibtex_autoexport_add");
    assert("zotero_discover"@.len() == 15);
    assert("zotero_status"@.len() == 13);
    assert("zotero_search"@.len() == 13);
    assert("zotero_pdf"@.len() == 10);
    assert("zotero_notes"@.len() == 12);
    assert("zotero_collections"@.len() == 18);
    assert("zotero_items"@.len() == 12);
    assert("zotero_tags"@.len() == 11);
    assert("zotero_relations"@.len() == 16);
    assert("better_bibtex"@.len() == 13);
    assert("better_notes"@.len() == 12);
    assert("search"@.len() == 6);
    assert("fetch"@.len() == 5);
    assert("zotero_sqlite_search"@.len() == 20);
    assert("zotero_notes_write"@.len() == 18);
    assert("zotero_collections_write"@.len() == 24);
    assert("zotero_items_write"@.len() == 18);
    assert("zotero_tags_write"@.len() == 17);
    assert("zotero_relations_write"@.len() == 22);
    assert("zotero_fulltext_search"@.len() == 22);
    assert("zotero_search_notes_annotations"@.len() == 31);
    assert("zotero_create_note"@.len() == 18);
    assert("zotero_create_collection"@.len() == 24);
    assert("zotero_manage_collections"@.len() == 25);
    assert("zotero_update_item"@.len() == 18);
    assert("zotero_attach_file"@.len() == 18);
    assert("zotero_batch_update_tags"@.len() == 24);
    assert("zotero_add_item_relation"@.len() == 24);
    assert("zotero_remove_item_relation"@.len() == 27);
    assert("zotero_delete_item"@.len() == 18);
    assert("zotero_trash_item"@.len() == 17);
    assert("zotero_restore_item"@.len() == 19);
    assert("zotero_delete_collection"@.len() == 24);
    assert("zotero_create_annotation"@.len() == 24);
    assert("zotero_add_by_identifier"@.len() == 24);
    assert("zotero_update_collection"@.len() == 24);
    assert("zotero_rename_tag"@.len() == 17);
    assert("zotero_delete_tags"@.len() == 18);
    assert("better_bibtex_regenerate_citekeys"@.len() == 33);
    assert("better_bibtex_autoexport_add"@.len() == 28);
    assert("zotero_notes_write"@[7] != "zotero_collections"@[7]);
    assert("zotero_items_write"@[7] != "zotero_collections"@[7]);
    assert("zotero_items_write"@[7] != "zotero_notes_write"@[7]);
    assert("zotero_create_note"@[8] != "zotero_collections"@[8]);
    assert("zotero_create_note"@[7] != "zotero_notes_write"@[7]);
    assert("zotero_create_note"@[7] != "zotero_items_write"@[7]);
    assert("zotero_create_collection"@[8] != "zotero_collections_write"@[8]);
    assert("zotero_update_item"@[7] != "zotero_collections"@[7]);
    assert("zotero_update_item"@[7] != "zotero_notes_write"@[7]);
    assert("zotero_update_item"@[7] != "zotero_items_write"@[7]);
    assert("zotero_update_item"@[7] != "zotero_create_note"@[7]);
    assert("zotero_attach_file"@[7] != "zotero_collections"@[7]);
    assert("zotero_attach_file"@[7] != "zotero_notes_write"@[7]);
    assert("zotero_attach_file"@[7] != "zotero_items_write"@[7]);
    assert("zotero_attach_file"@[7] != "zotero_create_note"@[7]);
    assert("zotero_attach_file"@[7] != "zotero_update_item"@[7]);
    assert("zotero_batch_update_tags"@[7] != "zotero_collections_write"@[7]);
    assert("zotero_batch_update_tags"@[7] != "zotero_create_collection"@[7]);
    assert("zotero_add_item_relation"@[7] != "zotero_collections_write"@[7]);
    assert("zotero_add_item_relation"@[7] != "zotero_create_collection"@[7]);
    assert("zotero_add_item_relation"@[7] != "zotero_batch_update_tags"@[7]);
    assert("zotero_delete_item"@[7] != "zotero_collections"@[7]);
    assert("zotero_delete_item"@[7] != "zotero_notes_write"@[7]);
    assert("zotero_delete_item"@[7] != "zotero_items_write"@[7]);
    assert("zotero_delete_item"@[7] != "zotero_create_note"@[7]);
    assert("zotero_delete_item"@[7] != "zotero_update_item"@[7]);
    assert("zotero_delete_item"@[7] != "zotero_attach_file"@[7]);
    assert("zotero_trash_item"@[8] != "zotero_tags_write"@[8]);
    assert("zotero_delete_collection"@[7] != "zotero_collections_write"@[7]);
    assert("zotero_delete_collection"@[7] != "zotero_create_collection"@[7]);
    assert("zotero_delete_collection"@[7] != "zotero_batch_update_tags"@[7]);
    assert("zotero_delete_collection"@[7] != "zotero_add_item_relation"@[7]);
    assert("zotero_create_annotation"@[8] != "zotero_collections_write"@[8]);
    assert("zotero_create_annotation"@[14] != "zotero_create_collection"@[14]);
    assert("zotero_create_annotation"@[7] != "zotero_batch_update_tags"@[7]);
    assert("zotero_create_annotation"@[7] != "zotero_add_item_relation"@[7]);
    assert("zotero_create_annotation"@[7] != "zotero_delete_collection"@[7]);
    assert("zotero_add_by_identifier"@[7] != "zotero_collections_write"@[7]);
    assert("zotero_add_by_identifier"@[7] != "zotero_create_collection"@[7]);
    assert("zotero_add_by_identifier"@[7] != "zotero_batch_update_tags"@[7]);
    assert("zotero_add_by_identifier"@[11] != "zotero_add_item_relation"@[11]);
    assert("zotero_add_by_identifier"@[7] != "zotero_delete_collection"@[7]);
    assert("zotero_add_by_identifier"@[7] != "zotero_create_annotation"@[7]);
    assert("zotero_update_collection"@[7] != "zotero_collections_write"@[7]);
    assert("zotero_update_collection"@[7] != "zotero_create_collection"@[7]);
    assert("zotero_update_collection"@[7] != "zotero_batch_update_tags"@[7]);
    assert("zotero_update_collection"@[7] != "zotero_add_item_relation"@[7]);
    assert("zotero_update_collection"@[7] != "zotero_delete_collection"@[7]);
    assert("zotero_update_collection"@[7] != "zotero_create_annotation"@[7]);
    assert("zotero_update_collection"@[7] != "zotero_add_by_identifier"@[7]);
    assert("zotero_rename_tag"@[7] != "zotero_tags_write"@[7]);
    assert("zotero_rename_tag"@[7] != "zotero_trash_item"@[7]);
    assert("zotero_delete_tags"@[7] != "zotero_collections"@[7]);
    assert("zotero_delete_tags"@[7] != "zotero_notes_write"@[7]);
    assert("zotero_delete_tags"@[7] != "zotero_items_write"@[7]);
    assert("zotero_delete_tags"@[7] != "zotero_create_note"@[7]);
    assert("zotero_delete_tags"@[7] != "zotero_update_item"@[7]);
    assert("zotero_delete_tags"@[7] != "zotero_attach_file"@[7]);
    assert("zotero_delete_tags"@[14] != "zotero_delete_item"@[14]);
    let t = library_write_tools();
    if i == 0 {
        assert(t[0] == "zotero_notes_write"@);
        assert(tool_visibility_spec("zotero_notes_write"@) == ToolVisibility::CompactWrite);
    } else if i == 1 {
        assert(t[1] == "zotero_collections_write"@);
        assert(tool_visibility_spec("zotero_collections_write"@) == ToolVisibility::CompactWrite);
    } else if i == 2 {
        assert(t[2] == "zotero_items_write"@);
        assert(tool_visibility_spec("zotero_items_write"@) == ToolVisibility::CompactWrite);
    } else if i == 3 {
        assert(t[3] == "zotero_tags_write"@);
        assert(tool_visibility_spec("zotero_tags_write"@) == ToolVisibility::CompactWrite);
    } else if i == 4 {
        assert(t[4] == "zotero_relations_write"@);
        assert(tool_visibility_spec("zotero_relations_write"@) == ToolVisibility::CompactWrite);
    } else if i == 5 {
        assert(t[5] == "zotero_create_note"@);
        assert(tool_visibility_spec("zotero_create_note"@) == ToolVisibility::LegacyWrite);
    } else if i == 6 {
        assert(t[6] == "zotero_create_collection"@);
        assert(tool_visibility_spec("zotero_create_collection"@) == ToolVisibility::LegacyWrite);
    } else if i == 7 {
        assert(t[7] == "zotero_manage_collections"@);
        assert(tool_visibility_spec("zotero_manage_collections"@) == ToolVisibility::LegacyWrite);
    } else if i == 8 {
        assert(t[8] == "zotero_update_item"@);
        assert(tool_visibility_spec("zotero_update_item"@) == ToolVisibility::LegacyWrite);
    } else if i == 9 {
        assert(t[9] == "zotero_attach_file"@);
        assert(tool_visibility_spec("zotero_attach_file"@) == ToolVisibility::LegacyWrite);
    } else if i == 10 {
        assert(t[10] == "zotero_batch_update_tags"@);
        assert(tool_visibility_spec("zotero_batch_update_tags"@) == ToolVisibility::LegacyWrite);
    } else if i == 11 {
        assert(t[11] == "zotero_add_item_relation"@);
        assert(tool_visibility_spec("zotero_add_item_relation"@) == ToolVisibility::LegacyWrite);
    } else if i == 12 {
        assert(t[12] == "zotero_remove_item_relation"@);
        assert(tool_visibility_spec("zotero_remove_item_relation"@) == ToolVisibility::LegacyWrite);
    } else if i == 13 {
        assert(t[13] == "zotero_delete_item"@);
        assert(tool_visibility_spec("zotero_delete_item"@) == ToolVisibility::LegacyWrite);
    } else if i == 14 {
        assert(t[14] == "zotero_trash_item"@);
        assert(tool_visibility_spec("zotero_trash_item"@) == ToolVisibility::LegacyWrite);
    } else if i == 15 {
        assert(t[15] == "zotero_restore_item"@);
        assert(tool_visibility_spec("zotero_restore_item"@) == ToolVisibility::LegacyWrite);
    } else if i == 16 {
        assert(t[16] == "zotero_delete_collection"@);
        assert(tool_visibility_spec("zotero_delete_collection"@) == ToolVisibility::LegacyWrite);
    } else if i == 17 {
        assert(t[17] == "zotero_create_annotation"@);
        assert(tool_visibility_spec("zotero_create_annotation"@) == ToolVisibility::LegacyWrite);
    } else if i == 18 {
        assert(t[18] == "zotero_add_by_identifier"@);
        assert(tool_visibility_spec("zotero_add_by_identifier"@) == ToolVisibility::LegacyWrite);
    } else if i == 19 {
        assert(t[19] == "zotero_update_collection"@);
        assert(tool_visibility_spec("zotero_update_collection"@) == ToolVisibility::LegacyWrite);
    } else if i == 20 {
        assert(t[20] == "zotero_rename_tag"@);
        assert(tool_visibility_spec("zotero_rename_tag"@) == ToolVisibility::LegacyWrite);
    } else if i == 21 {
        assert(t[21] == "zotero_delete_tags"@);
        assert(tool_visibility_spec("zotero_delete_tags"@) == ToolVisibility::LegacyWrite);
    } else if i == 22 {
        assert(t[22] == "better_bibtex_regenerate_citekeys"@);
        assert(tool_visibility_spec("better_bibtex_regenerate_citekeys"@) == ToolVisibility::LegacyWrite);
    } else if i == 23 {
        assert(t[23] == "better_bibtex_autoexport_add"@);
        assert(tool_visibility_spec("better_bibtex_autoexport_add"@) == ToolVisibility::LegacyWrite);
    }
}

/// Only the tools that change the library sit behind the write gate.
pub proof fn law_write_gate_holds_only_library_writes(name: Seq<char>)
    ensures
        (tool_visibility_spec(name) == ToolVisibility::CompactWrite || tool_visibility_spec(name) == ToolVisibility::LegacyWrite)
            ==> library_write_tools().contains(name),
{
    let t = library_write_tools();
    if tool_visibility_spec(name) == ToolVisibility::CompactWrite || tool_visibility_spec(name) == ToolVisibility::LegacyWrite {
        assert(name == t[0] || name == t[1] || name == t[2] || name == t[3] || name == t[4] || name == t[5]
            || name == t[6] || name == t[7] || name == t[8] || name == t[9] || name == t[10] || name == t[11]
            || name == t[12] || name == t[13] || name == t[14] || name == t[15] || name == t[16] || name == t[17]
            || name == t[18] || name == t[19] || name == t[20] || name == t[21] || name == t[22] || name == t[23]);
    }
}

/// The tools that query the Zotero SQLite database directly: the grouped
/// SQLite search and the legacy full-text and note/annotation searches.
pub open spec fn sqlite_tools() -> Seq<Seq<char>> {
    seq![
        "zotero_sqlite_search"@,
        "zotero_fulltext_search"@,
        "zotero_search_notes_annotations"@,
    ]
}

/// Exactly the tools that query the database directly sit behind the
/// SQLite gate, so with SQLite access disabled neither gated nor compact
/// mode lists any of them.
pub proof fn law_sqlite_tools_sit_behind_the_sqlite_gate(mode: ToolExposureMode, write_enabled: bool, sqlite_access: bool, i: int, name: Seq<char>)
    requires
        0 <= i < sqlite_tools().len(),
    ensures
        tool_visibility_spec(sqlite_tools()[i]) == ToolVisibility::CompactSqlite
            || tool_visibility_spec(sqlite_tools()[i]) == ToolVisibility::LegacySqlite,
        (!sqlite_access && mode != ToolExposureMode::All) ==> !tool_listed_spec(mode, write_enabled, sqlite_access, sqlite_tools()[i]),
        (tool_visibility_spec(name) == ToolVisibility::CompactSqlite || tool_visibility_spec(name) == ToolVisibility::LegacySqlite)
            ==> sqlite_tools().contains(name),
{
    reveal_strlit("zotero_discover");
    reveal_strlit("zotero_status");
    reveal_strlit("zotero_search");
    reveal_strlit("zotero_pdf");
    reveal_strlit("zotero_notes");
    reveal_strlit("zotero_collections");
    reveal_strlit("zotero_items");
    reveal_strlit("zotero_tags");
    reveal_strlit("zotero_relations");
    reveal_strlit("better_bibtex");
    reveal_strlit("better_notes");
    reveal_strlit("search");
    reveal_strlit("fetch");
    reveal_strlit("zotero_sqlite_search");
    reveal_strlit("zotero_notes_write");
    reveal_strlit("zotero_collections_write");
    reveal_strlit("zotero_items_write");
    reveal_strlit("zotero_tags_write");
    reveal_strlit("zotero_relations_write");
    reveal_strlit("zotero_fulltext_search");
    reveal_strlit("zotero_search_notes_annotations");
    assert("zotero_discover"@.len() == 15);
    assert("zotero_status"@.len() == 13);
    assert("zotero_search"@.len() == 13);
    assert("zotero_pdf"@.len() == 10);
    assert("zotero_notes"@.len() == 12);
    assert("zotero_collections"@.len() == 18);
    assert("zotero_items"@.len() == 12);
    assert("zotero_tags"@.len() == 11);
    assert("zotero_relations"@.len() == 16);
    assert("better_bibtex"@.len() == 13);
    assert("better_notes"@.len() == 12);
    assert("search"@.len() == 6);
    assert("fetch"@.len() == 5);
    assert("zotero_sqlite_search"@.len() == 20);
    assert("zotero_notes_write"@.len() == 18);
    assert("zotero_collections_write"@.len() == 24);
    assert("zotero_items_write"@.len() == 18);
    assert("zotero_tags_write"@.len() == 17);
    assert("zotero_relations_write"@.len() == 22);
    assert("zotero_fulltext_search"@.len() == 22);
    assert("zotero_search_notes_annotations"@.len() == 31);
    assert("zotero_fulltext_search"@[7] != "zotero_relations_write"@[7]);
    let t = sqlite_tools();
    if i == 0 {
        assert(t[0] == "zotero_sqlite_search"@);
        assert(tool_visibility_spec("zotero_sqlite_search"@) == ToolVisibility::CompactSqlite);
    } else if i == 1 {
        assert(t[1] == "zotero_fulltext_search"@);
        assert(tool_visibility_spec("zotero_fulltext_search"@) == ToolVisibility::LegacySqlite);
    } else if i == 2 {
        assert(t[2] == "zotero_search_notes_annotations"@);
        assert(tool_visibility_spec("zotero_search_notes_annotations"@) == ToolVisibility::LegacySqlite);
    }
    if tool_visibility_spec(name) == ToolVisibility::CompactSqlite || tool_visibility_spec(name) == ToolVisibility::LegacySqlite {
        assert(name == t[0] || name == t[1] || name == t[2]);
    }
}

/// Compact mode never lists a tool that gated mode hides.
pub proof fn law_compact_listing_is_within_gated_listing(name: Seq<char>, write_enabled: bool, sqlite_access: bool)
    ensures
        tool_listed_spec(ToolExposureMode::Compact, write_enabled, sqlite_access, name)
            ==> tool_listed_spec(ToolExposureMode::Gated, write_enabled, sqlite_access, name),
{
}

/// With writes disabled no write tool is listed in gated or compact mode,
/// and with SQLite access disabled no SQLite tool is.
pub proof fn law_closed_gates_hide_their_tools(name: Seq<char>, mode: ToolExposureMode, write_enabled: bool, sqlite_access: bool)
    requires
        mode != ToolExposureMode::All,
    ensures
        (!write_enabled && (tool_visibility_spec(name) == ToolVisibility::CompactWrite || tool_visibility_spec(name) == ToolVisibility::LegacyWrite))
            ==> !tool_listed_spec(mode, write_enabled, sqlite_access, name),
        (!sqlite_access && (tool_visibility_spec(name) == ToolVisibility::CompactSqlite || tool_visibility_spec(name) == ToolVisibility::LegacySqlite))
            ==> !tool_listed_spec(mode, write_enabled, sqlite_access, name),
{
}

/// Compact mode lists no legacy tool; all mode lists every tool.
pub proof fn law_modes_bound_the_listing(name: Seq<char>, write_enabled: bool, sqlite_access: bool)
    ensures
        (tool_visibility_spec(name) == ToolVisibility::LegacyUngated || tool_visibility_spec(name) == ToolVisibility::LegacySqlite
            || tool_visibility_spec(name) == ToolVisibility::LegacyWrite)
            ==> !tool_listed_spec(ToolExposureMode::Compact, write_enabled, sqlite_access, name),
        tool_listed_spec(ToolExposureMode::All, write_enabled, sqlite_access, name),
{
}

/// What a catalog entry is.
#[derive(Clone, Copy, Debug, PartialEq, Eq, Structural)]
pub enum CapabilityKind {
    /// A tool.
    Tool,
    /// A resource template.
    Resource,
    /// A prompt.
    Prompt,
}

/// The area a catalog entry belongs to.
#[derive(Clone, Copy, Debug, PartialEq, Eq, Structural)]
pub enum CapabilityDomain {
    /// Discovery itself.
    Discovery,
    /// Items.
    Items,
    /// Collections.
    Collections,
    /// Searches.
    Search,
    /// Notes.
    Notes,
    /// The local SQLite database.
    Sqlite,
    /// Prompts.
    Prompts,
}

/// A permission gate a catalog entry needs.
#[derive(Clone, Copy, Debug, PartialEq, Eq, Structural)]
pub enum CapabilityGate {
    /// `ZOTERO_WRITE_ENABLED`.
    WriteEnabled,
    /// `ZOTERO_SQLITE_ACCESS`.
    SqliteAccess,
}

/// One catalog entry.
#[derive(Debug)]
pub struct CapabilityInfo {
    /// Tool, resource template or prompt name.
    pub name: String,
    /// What the entry is.
    pub kind: CapabilityKind,
    /// Its area.
    pub domain: CapabilityDomain,
    /// The gates it needs.
    pub requires: Vec<CapabilityGate>,
    /// One-line description.
    pub summary: String,
    /// Example arguments or URI.
    pub example: Option<String>,
    /// Lower-case text matched by discovery queries.
    pub search_text: String,
}

/// The mathematical content of a catalog entry.
pub struct CapabilityModel {
    pub name: Seq<char>,
    pub kind: CapabilityKind,
    pub domain: CapabilityDomain,
    pub requires: Seq<CapabilityGate>,
    pub summary: Seq<char>,
    pub example: Option<Seq<char>>,
    pub search_text: Seq<char>,
}

/// The content of a catalog entry.
pub open spec fn capability_view(c: CapabilityInfo) -> CapabilityModel {
    CapabilityModel {
        name: c.name@,
        kind: c.kind,
        domain: c.domain,
        requires: c.requires@,
        summary: c.summary@,
        example: opt_view(c.example),
        search_text: c.search_text@,
    }
}

/// The contents of a list of catalog entries.
pub open spec fn capabilities_view(v: Seq<CapabilityInfo>) -> Seq<CapabilityModel> {
    v.map_values(|c: CapabilityInfo| capability_view(c))
}

/// The catalog, in order.
pub open spec fn catalog_spec() -> Seq<CapabilityModel> {
    seq![
        CapabilityModel {
            name: "zotero_discover"@,
            kind: CapabilityKind::Tool,
            domain: CapabilityDomain::Discovery,
            requires: seq![],
            summary: "Find Zotero tools, resources, prompts, env gates, and examples"@,
            example: Some("{\"query\":\"notes\"}"@),
            search_text: "zotero_discover discovery find zotero tools resources prompts env gates and examples"@,
        },
        CapabilityModel {
            name: "zotero://items/{item_key}"@,
            kind: CapabilityKind::Resource,
            domain: CapabilityDomain::Items,
            requires: seq![],
            summary: "Read one Zotero item by key"@,
            example: Some("zotero://items/ITEMKEY"@),
            search_text: "zotero://items/{item_key} items read one zotero item by key"@,
        },
        CapabilityModel {
            name: "zotero://collections/{collection_key}/items"@,
            kind: CapabilityKind::Resource,
            domain: CapabilityDomain::Collections,
            requires: seq![],
            summary: "Read collection items"@,
            example: Some("zotero://collections/COLKEY/items"@),
            search_text: "zotero://collections/{collection_key}/items collections read collection items"@,
        },
        CapabilityModel {
            name: "zotero_search"@,
            kind: CapabilityKind::Tool,
            domain: CapabilityDomain::Search,
            requires: seq![],
            summary: "Grouped search actions: items, tag, citation_key, advanced, duplicates, coverage"@,
            example: Some("{\"action\":\"items\",\"query\":\"rust\",\"limit\":10}"@),
            search_text: "zotero_search search grouped search actions items tag citation_key advanced duplicates coverage"@,
        },
        CapabilityModel {
            name: "zotero_items"@,
            kind: CapabilityKind::Tool,
            domain: CapabilityDomain::Items,
            requires: seq![],
            summary: "Grouped item read actions: recent, get, metadata, children, fulltext"@,
            example: Some("{\"action\":\"get\",\"item_key\":\"ITEMKEY\"}"@),
            search_text: "zotero_items items grouped item read actions recent get metadata children fulltext"@,
        },
        CapabilityModel {
            name: "zotero_notes"@,
            kind: CapabilityKind::Tool,
            domain: CapabilityDomain::Notes,
            requires: seq![],
            summary: "Grouped note read actions: list, synthesize"@,
            example: Some("{\"action\":\"list\",\"item_key\":\"ITEMKEY\"}"@),
            search_text: "zotero_notes notes grouped note read actions list synthesize"@,
        },
        CapabilityModel {
            name: "zotero_items_write"@,
            kind: CapabilityKind::Tool,
            domain: CapabilityDomain::Items,
            requires: seq![CapabilityGate::WriteEnabled],
            summary: "Grouped item write actions: update, delete, trash, restore, add_by_identifier, attach_file"@,
            example: Some("{\"action\":\"trash\",\"item_key\":\"ITEMKEY\"}"@),
            search_text: "zotero_items_write items grouped item write actions update delete trash restore add_by_identifier attach_file zotero_write_enabled"@,
        },
        CapabilityModel {
            name: "zotero_notes_write"@,
            kind: CapabilityKind::Tool,
            domain: CapabilityDomain::Notes,
            requires: seq![CapabilityGate::WriteEnabled],
            summary: "Grouped note write actions: create, annotation"@,
            example: Some("{\"action\":\"create\",\"parent_key\":\"ITEMKEY\",\"markdown\":\"# Note\"}"@),
            search_text: "zotero_notes_write notes grouped note write actions create annotation zotero_write_enabled"@,
        },
        CapabilityModel {
            name: "zotero_sqlite_search"@,
            kind: CapabilityKind::Tool,
            domain: CapabilityDomain::Sqlite,
            requires: seq![CapabilityGate::SqliteAccess],
            summary: "Grouped local SQLite search actions: fulltext, notes_annotations"@,
            example: Some("{\"action\":\"fulltext\",\"query\":\"borrow checker\"}"@),
            search_text: "zotero_sqlite_search sqlite grouped local sqlite search actions fulltext notes_annotations zotero_sqlite_access"@,
        },
        CapabilityModel {
            name: "zotero_literature_review"@,
            kind: CapabilityKind::Prompt,
            domain: CapabilityDomain::Prompts,
            requires: seq![],
            summary: "Generate a literature review prompt for a collection"@,
            example: Some("{\"collection_key\":\"COLKEY\"}"@),
            search_text: "zotero_literature_review prompts generate a literature review prompt for a collection"@,
        },
    ]
}

fn push_capability(
    out: &mut Vec<CapabilityInfo>,
    name: &str,
    kind: CapabilityKind,
    domain: CapabilityDomain,
    gates: Vec<CapabilityGate>,
    summary: &str,
    example: &str,
    search_text: &str,
)
    ensures
        capabilities_view(final(out)@) == capabilities_view(old(out)@).push(CapabilityModel {
            name: name@,
            kind,
            domain,
            requires: gates@,
            summary: summary@,
            example: Some(example@),
            search_text: search_text@,
        }),
{
    let c = CapabilityInfo {
        name: name.to_owned(),
        kind,
        domain,
        requires: gates,
        summary: summary.to_owned(),
        example: Some(example.to_owned()),
        search_text: search_text.to_owned(),
    };
    let ghost before = out@;
    out.push(c);
    assert(capabilities_view(out@) =~= capabilities_view(before).push(capability_view(c)));
}

/// The capability catalog searched by discovery.
pub fn capabilities() -> (r: Vec<CapabilityInfo>)
    ensures
        capabilities_view(r@) == catalog_spec(),
{
    let mut out: Vec<CapabilityInfo> = Vec::new();
    let mut gates: Vec<CapabilityGate> = Vec::new();

    push_capability(&mut out, "zotero_discover", CapabilityKind::Tool, CapabilityDomain::Discovery, gates, "Find Zotero tools, resources, prompts, env gates, and examples", "{\"query\":\"notes\"}", "zotero_discover discovery find zotero tools resources prompts env gates and examples");
    let mut gates: Vec<CapabilityGate> = Vec::new();

    push_capability(&mut out, "zotero://items/{item_key}", CapabilityKind::Resource, CapabilityDomain::Items, gates, "Read one Zotero item by key", "zotero://items/ITEMKEY", "zotero://items/{item_key} items read one zotero item by key");
    let mut gates: Vec<CapabilityGate> = Vec::new();

    push_capability(&mut out, "zotero://collections/{collection_key}/items", CapabilityKind::Resource, CapabilityDomain::Collections, gates, "Read collection items", "zotero://collections/COLKEY/items", "zotero://collections/{collection_key}/items collections read collection items");
    let mut gates: Vec<CapabilityGate> = Vec::new();

    push_capability(&mut out, "zotero_search", CapabilityKind::Tool, CapabilityDomain::Search, gates, "Grouped search actions: items, tag, citation_key, advanced, duplicates, coverage", "{\"action\":\"items\",\"query\":\"rust\",\"limit\":10}", "zotero_search search grouped search actions items tag citation_key advanced duplicates coverage");
    let mut gates: Vec<CapabilityGate> = Vec::new();

    push_capability(&mut out, "zotero_items", CapabilityKind::Tool, CapabilityDomain::Items, gates, "Grouped item read actions: recent, get, metadata, children, fulltext", "{\"action\":\"get\",\"item_key\":\"ITEMKEY\"}", "zotero_items items grouped item read actions recent get metadata children fulltext");
    let mut gates: Vec<CapabilityGate> = Vec::new();

    push_capability(&mut out, "zotero_notes", CapabilityKind::Tool, CapabilityDomain::Notes, gates, "Grouped note read actions: list, synthesize", "{\"action\":\"list\",\"item_key\":\"ITEMKEY\"}", "zotero_notes notes grouped note read actions list synthesize");
    let mut gates: Vec<CapabilityGate> = Vec::new();
    gates.push(CapabilityGate::WriteEnabled);
    push_capability(&mut out, "zotero_items_write", CapabilityKind::Tool, CapabilityDomain::Items, gates, "Grouped item write actions: update, delete, trash, restore, add_by_identifier, attach_file", "{\"action\":\"trash\",\"item_key\":\"ITEMKEY\"}", "zotero_items_write items grouped item write actions update delete trash restore add_by_identifier attach_file zotero_write_enabled");
    let mut gates: Vec<CapabilityGate> = Vec::new();
    gates.push(CapabilityGate::WriteEnabled);
    push_capability(&mut out, "zotero_notes_write", CapabilityKind::Tool, CapabilityDomain::Notes, gates, "Grouped note write actions: create, annotation", "{\"action\":\"create\",\"parent_key\":\"ITEMKEY\",\"markdown\":\"# Note\"}", "zotero_notes_write notes grouped note write actions create annotation zotero_write_enabled");
    let mut gates: Vec<CapabilityGate> = Vec::new();
    gates.push(CapabilityGate::SqliteAccess);
    push_capability(&mut out, "zotero_sqlite_search", CapabilityKind::Tool, CapabilityDomain::Sqlite, gates, "Grouped local SQLite search actions: fulltext, notes_annotations", "{\"action\":\"fulltext\",\"query\":\"borrow checker\"}", "zotero_sqlite_search sqlite grouped local sqlite search actions fulltext notes_annotations zotero_sqlite_access");
    let mut gates: Vec<CapabilityGate> = Vec::new();

    push_capability(&mut out, "zotero_literature_review", CapabilityKind::Prompt, CapabilityDomain::Prompts, gates, "Generate a literature review prompt for a collection", "{\"collection_key\":\"COLKEY\"}", "zotero_literature_review prompts generate a literature review prompt for a collection");
    assert(capabilities_view(out@) =~= catalog_spec());
    out
}


/// Arguments of the discovery tool.
pub struct DiscoverArgs {
    /// Text the entries' search text must contain (compared lower-cased).
    pub query: Option<String>,
    /// The only area to list.
    pub domain: Option<CapabilityDomain>,
    /// Whether to list entries whose gates are closed.
    pub include_disabled: Option<bool>,
}

/// An entry is enabled when none of its gates is closed.
pub open spec fn capability_enabled_spec(c: CapabilityModel, write_enabled: bool, sqlite_access: bool) -> bool {
    forall|i: int| 0 <= i < c.requires.len() ==> !(
        (#[trigger] c.requires[i] == CapabilityGate::WriteEnabled && !write_enabled)
        || (c.requires[i] == CapabilityGate::SqliteAccess && !sqlite_access)
    )
}

/// Whether `capability` is enabled for `state`.
pub fn is_capability_enabled(state: &AppState, capability: &CapabilityInfo) -> (r: bool)
    ensures
        r == capability_enabled_spec(capability_view(*capability), state.write_enabled, state.sqlite_access),
{
    let mut i: usize = 0;
    while i < capability.requires.len()
        invariant
            0 <= i <= capability.requires.len(),
            forall|j: int| 0 <= j < i ==> !(
                (#[trigger] capability.requires@[j] == CapabilityGate::WriteEnabled && !state.write_enabled)
                || (capability.requires@[j] == CapabilityGate::SqliteAccess && !state.sqlite_access)
            ),
        decreases capability.requires.len() - i,
    {
        let g = capability.requires[i];
        if (g == CapabilityGate::WriteEnabled && !state.write_enabled) || (g == CapabilityGate::SqliteAccess && !state.sqlite_access) {
            return false;
        }
        i = i + 1;
    }
    true
}

/// An entry is listed by discovery: it is enabled (or disabled entries are
/// asked for), it is in the asked area (if any), and its search text
/// contains the lower-cased query (if any).
pub open spec fn discovered_spec(
    c: CapabilityModel,
    query: Option<Seq<char>>,
    domain: Option<CapabilityDomain>,
    include_disabled: Option<bool>,
    write_enabled: bool,
    sqlite_access: bool,
) -> bool {
    &&& (include_disabled == Some(true) || capability_enabled_spec(c, write_enabled, sqlite_access))
    &&& (domain matches Some(d) ==> c.domain == d)
    &&& (query matches Some(q) ==> contains_seq(c.search_text, std_to_lowercase(q)))
}

/// The entries of the catalog discovery lists, in catalog order.
pub open spec fn discover_spec(
    query: Option<Seq<char>>,
    domain: Option<CapabilityDomain>,
    include_disabled: Option<bool>,
    write_enabled: bool,
    sqlite_access: bool,
) -> Seq<CapabilityModel> {
    catalog_spec().filter(|c: CapabilityModel| discovered_spec(c, query, domain, include_disabled, write_enabled, sqlite_access))
}

/// The catalog entries the discovery tool lists for `args` under `state`.
pub fn discover_capabilities(state: &AppState, args: &DiscoverArgs) -> (r: Vec<CapabilityInfo>)
    ensures
        capabilities_view(r@) == discover_spec(opt_view(args.query), args.domain, args.include_disabled, state.write_enabled, state.sqlite_access),
{
    let ghost pred = |c: CapabilityModel| discovered_spec(c, opt_view(args.query), args.domain, args.include_disabled, state.write_enabled, state.sqlite_access);
    let query: Option<Vec<char>> = match &args.query {
        Some(q) => {
            let l = to_lowercase(q.as_str());
            Some(chars_of(l.as_str()))
        },
        None => None,
    };
    let all = capabilities();
    let ghost all_v = capabilities_view(all@);
    let ghost all_s = all@;
    let mut out: Vec<CapabilityInfo> = Vec::new();
    for c in it: all.into_iter()
        invariant
            it.seq() == all_s,
            all_v == capabilities_view(all_s),
            all_v == catalog_spec(),
            pred == (|c: CapabilityModel| discovered_spec(c, opt_view(args.query), args.domain, args.include_disabled, state.write_enabled, state.sqlite_access)),
            match args.query {
                Some(q) => query matches Some(l) && l@ == std_to_lowercase(q@),
                None => query is None,
            },
            capabilities_view(out@) == capabilities_view(all_s.take(it.index() as int)).filter(pred),
    {
        let ghost k = it.index() as int;
        proof {
            reveal(Seq::filter);
            assert(capabilities_view(all_s.take(k + 1)).drop_last() =~= capabilities_view(all_s.take(k)));
            assert(capabilities_view(all_s.take(k + 1)).last() == capability_view(all_s[k]));
        }
        let enabled = args.include_disabled == Some(true) || is_capability_enabled(state, &c);
        let in_domain = match args.domain {
            Some(d) => c.domain == d,
            None => true,
        };
        let matches_query = match &query {
            Some(q) => {
                let text = chars_of(c.search_text.as_str());
                contains_chars(&text, q)
            },
            None => true,
        };
        let ghost before = out@;
        if enabled && in_domain && matches_query {
            out.push(c);
            assert(capabilities_view(out@) =~= capabilities_view(before).push(capability_view(c)));
        }
    }
    assert(all_s.take(all_s.len() as int) =~= all_s);
    out
}

/// Unless disabled entries are asked for, discovery never lists an entry
/// needing a closed gate.
pub proof fn law_discovery_hides_closed_gates(
    query: Option<Seq<char>>,
    domain: Option<CapabilityDomain>,
    include_disabled: Option<bool>,
    write_enabled: bool,
    sqlite_access: bool,
    i: int,
)
    requires
        include_disabled != Some(true),
        0 <= i < discover_spec(query, domain, include_disabled, write_enabled, sqlite_access).len(),
    ensures
        capability_enabled_spec(discover_spec(query, domain, include_disabled, write_enabled, sqlite_access)[i], write_enabled, sqlite_access),
{
    let pred = |c: CapabilityModel| discovered_spec(c, query, domain, include_disabled, write_enabled, sqlite_access);
    catalog_spec().lemma_filter_pred(pred, i);
}

/// Asking for disabled entries only adds entries: everything listed without
/// it is listed with it.
pub proof fn law_including_disabled_only_adds(
    query: Option<Seq<char>>,
    domain: Option<CapabilityDomain>,
    write_enabled: bool,
    sqlite_access: bool,
    c: CapabilityModel,
)
    requires
        discover_spec(query, domain, None, write_enabled, sqlite_access).contains(c),
    ensures
        discover_spec(query, domain, Some(true), write_enabled, sqlite_access).contains(c),
{
    let p1 = |x: CapabilityModel| discovered_spec(x, query, domain, None, write_enabled, sqlite_access);
    let p2 = |x: CapabilityModel| discovered_spec(x, query, domain, Some(true), write_enabled, sqlite_access);
    let f1 = catalog_spec().filter(p1);
    let j = choose|j: int| 0 <= j < f1.len() && f1[j] == c;
    catalog_spec().lemma_filter_pred(p1, j);
    lemma_filter_member(catalog_spec(), p1, j);
    let k = choose|k: int| 0 <= k < catalog_spec().len() && catalog_spec()[k] == c;
    catalog_spec().lemma_filter_contains(p2, k);
}

/// Queries match case-insensitively against the lower-cased query: a catalog
/// entry is listed for query `q` exactly when it is enabled (or disabled
/// entries are asked for), it is in the asked area (if any), and its search
/// text contains the lower-cased `q`.
pub proof fn law_discovery_matches_the_lowercased_query(
    q: Seq<char>,
    domain: Option<CapabilityDomain>,
    include_disabled: Option<bool>,
    write_enabled: bool,
    sqlite_access: bool,
    i: int,
)
    requires
        0 <= i < catalog_spec().len(),
    ensures
        discover_spec(Some(q), domain, include_disabled, write_enabled, sqlite_access).contains(catalog_spec()[i])
            <==> ({
                let c = catalog_spec()[i];
                &&& (include_disabled == Some(true) || capability_enabled_spec(c, write_enabled, sqlite_access))
                &&& (domain matches Some(d) ==> c.domain == d)
                &&& contains_seq(c.search_text, std_to_lowercase(q))
            }),
{
    let p = |x: CapabilityModel| discovered_spec(x, Some(q), domain, include_disabled, write_enabled, sqlite_access);
    let f = catalog_spec().filter(p);
    let c = catalog_spec()[i];
    if f.contains(c) {
        let j = choose|j: int| 0 <= j < f.len() && f[j] == c;
        catalog_spec().lemma_filter_pred(p, j);
    }
    if p(c) {
        catalog_spec().lemma_filter_contains(p, i);
    }
}

proof fn lemma_filter_member(s: Seq<CapabilityModel>, p: spec_fn(CapabilityModel) -> bool, j: int)
    requires
        0 <= j < s.filter(p).len(),
    ensures
        s.contains(s.filter(p)[j]),
    decreases s.len(),
{
    reveal(Seq::filter);
    if s.len() > 0 {
        let sub = s.drop_last().filter(p);
        if p(s.last()) && j == sub.len() {
            assert(s[s.len() - 1] == s.last());
        } else {
            assert(s.filter(p)[j] == sub[j]);
            lemma_filter_member(s.drop_last(), p, j);
            let k = choose|k: int| 0 <= k < s.drop_last().len() && s.drop_last()[k] == sub[j];
            assert(s[k] == sub[j]);
        }
    }
}

/// The instructions the server gives clients when they connect.
pub open spec fn server_instructions_spec() -> Seq<char> {
    "Call zotero_discover first to find Zotero tools, resources, prompts, env gates, and examples. Use zotero://... resources for read-only object retrieval, including zotero://items/{item_key}. search and fetch are connector compatibility tools. Write tools require ZOTERO_WRITE_ENABLED=1. SQLite tools require ZOTERO_SQLITE_ACCESS=1. ZOTERO_MCP_MODE=all exposes legacy individual tools."@
}

/// The instructions the server gives clients when they connect: start
/// with discovery, read through resources, and the settings that open the
/// write, SQLite and legacy tools.
pub fn server_instructions() -> (r: String)
    ensures
        r@ == server_instructions_spec(),
{
    "Call zotero_discover first to find Zotero tools, resources, prompts, env gates, and examples. Use zotero://... resources for read-only object retrieval, including zotero://items/{item_key}. search and fetch are connector compatibility tools. Write tools require ZOTERO_WRITE_ENABLED=1. SQLite tools require ZOTERO_SQLITE_ACCESS=1. ZOTERO_MCP_MODE=all exposes legacy individual tools.".to_owned()
}

} // verus!
