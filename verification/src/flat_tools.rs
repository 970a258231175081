//! Decisions of the flat tool set, the one tool per operation router whose
//! items carry their item type as text (`"attachment"`, `"note"`, ...).
//!
//! A handler there alternates lookups in the Zotero API with decisions on
//! what came back. Each decision is a function from what is known to the
//! next step: another lookup, a path to read, or a message to answer with.

use vstd::prelude::*;

use crate::text::{
    chars_of, contains_chars, contains_seq, eq_ignore_ascii_case_spec, has_suffix, std_to_lowercase,
    str_eq, str_eq_ignore_ascii_case, to_lowercase, ends_with_chars,
};

verus! {

/// An item as the flat tools read it.
#[derive(Debug)]
pub struct FlatItem {
    /// The item key.
    pub key: String,
    /// The item type, as Zotero names it.
    pub item_type: String,
    /// The attachment's stored path.
    pub path: Option<String>,
    /// The attachment's MIME type.
    pub content_type: Option<String>,
    /// The note's HTML.
    pub note: Option<String>,
}

/// What to do next while locating a PDF.
#[derive(Debug)]
pub enum PdfStep {
    /// Look the item with this key up.
    FetchItem(String),
    /// Look the children of the item with this key up.
    FetchChildren(String),
    /// The PDF is at this path.
    Found(String),
    /// Answer with this error message.
    Fail(String),
}

/// The mathematical content of a [`PdfStep`].
pub enum PdfStepModel {
    FetchItem(Seq<char>),
    FetchChildren(Seq<char>),
    Found(Seq<char>),
    Fail(Seq<char>),
}

/// The content of a step.
pub open spec fn step_view(s: PdfStep) -> PdfStepModel {
    match s {
        PdfStep::FetchItem(k) => PdfStepModel::FetchItem(k@),
        PdfStep::FetchChildren(k) => PdfStepModel::FetchChildren(k@),
        PdfStep::Found(p) => PdfStepModel::Found(p@),
        PdfStep::Fail(m) => PdfStepModel::Fail(m@),
    }
}

/// `item` is an attachment.
pub open spec fn is_attachment(item: FlatItem) -> bool {
    item.item_type@ == "attachment"@
}

fn item_is_attachment(item: &FlatItem) -> (r: bool)
    ensures
        r == is_attachment(*item),
{
    str_eq(item.item_type.as_str(), "attachment")
}

/// The first step of reading PDF pages: an absolute path (starting with
/// `/`) is read as it is, anything else is an item key to look up.
pub open spec fn read_pages_start_spec(input: Seq<char>) -> PdfStepModel {
    if input.len() > 0 && input[0] == '/' {
        PdfStepModel::Found(input)
    } else {
        PdfStepModel::FetchItem(input)
    }
}

/// Starts locating the PDF to read for `input`, a path or an item key.
pub fn read_pages_start(input: &str) -> (r: PdfStep)
    ensures
        step_view(r) == read_pages_start_spec(input@),
{
    let v = chars_of(input);
    if v.len() > 0 && v[0] == '/' {
        PdfStep::Found(input.to_owned())
    } else {
        PdfStep::FetchItem(input.to_owned())
    }
}

/// After the item lookup: a failed lookup answers with its error; an
/// attachment with a stored path is read from that path; otherwise the
/// children of `key` are looked up.
pub open spec fn after_item_spec(key: Seq<char>, item: Result<FlatItem, String>) -> PdfStepModel {
    match item {
        Err(e) => PdfStepModel::Fail(e@),
        Ok(it) => if is_attachment(it) && it.path is Some {
            PdfStepModel::Found(it.path->0@)
        } else {
            PdfStepModel::FetchChildren(key)
        },
    }
}

/// The step after looking up the item `key` (see [`after_item_spec`]).
pub fn read_pages_after_item(key: &str, item: Result<FlatItem, String>) -> (r: PdfStep)
    ensures
        step_view(r) == after_item_spec(key@, item),
{
    match item {
        Err(e) => PdfStep::Fail(e),
        Ok(it) => {
            if item_is_attachment(&it) {
                match it.path {
                    Some(p) => PdfStep::Found(p),
                    None => PdfStep::FetchChildren(key.to_owned()),
                }
            } else {
                PdfStep::FetchChildren(key.to_owned())
            }
        },
    }
}

/// A child the page reader takes: an attachment whose stored path ends in
/// `.pdf` once lower-cased.
pub open spec fn page_source_child(c: FlatItem) -> bool {
    is_attachment(c) && c.path is Some && has_suffix(std_to_lowercase(c.path->0@), ".pdf"@)
}

/// The position of the first child satisfying `pred`.
pub open spec fn first_index(children: Seq<FlatItem>, pred: spec_fn(FlatItem) -> bool) -> Option<int> {
    if exists|i: int| 0 <= i < children.len() && pred(#[trigger] children[i]) {
        Some(choose|i: int| 0 <= i < children.len() && pred(#[trigger] children[i]) && forall|j: int| 0 <= j < i ==> !pred(#[trigger] children[j]))
    } else {
        None
    }
}

/// The message given when no child of an item is a PDF to read.
pub open spec fn no_page_source_message() -> Seq<char> {
    "PDF attachment path not found for item"@
}

fn is_page_source(c: &FlatItem) -> (r: bool)
    ensures
        r == page_source_child(*c),
{
    if !item_is_attachment(c) {
        return false;
    }
    match &c.path {
        Some(p) => {
            let lower = to_lowercase(p.as_str());
            let l = chars_of(lower.as_str());
            let suffix = chars_of(".pdf");
            ends_with_chars(&l, &suffix)
        },
        None => false,
    }
}

/// The step after looking up the children: a failed lookup answers with
/// its error; else the first attachment whose path ends in `.pdf` (any
/// case) is read; else the item has no PDF to read.
pub fn read_pages_after_children(children: Result<Vec<FlatItem>, String>) -> (r: PdfStep)
    ensures
        children matches Err(e) ==> step_view(r) == PdfStepModel::Fail(e@),
        children matches Ok(cs) ==> (match first_index(cs@, |c: FlatItem| page_source_child(c)) {
            Some(i) => step_view(r) == PdfStepModel::Found(cs@[i].path->0@),
            None => step_view(r) == PdfStepModel::Fail(no_page_source_message()),
        }),
{
    match children {
        Err(e) => PdfStep::Fail(e),
        Ok(cs) => first_page_source(cs),
    }
}

fn first_page_source(cs: Vec<FlatItem>) -> (r: PdfStep)
    ensures
        match first_index(cs@, |c: FlatItem| page_source_child(c)) {
            Some(i) => step_view(r) == PdfStepModel::Found(cs@[i].path->0@),
            None => step_view(r) == PdfStepModel::Fail(no_page_source_message()),
        },
{
    let ghost all = cs@;
    let ghost pred = |c: FlatItem| page_source_child(c);
    for c in it: cs.into_iter()
        invariant
            it.seq() == all,
            pred == (|c: FlatItem| page_source_child(c)),
            forall|j: int| 0 <= j < it.index() ==> !pred(#[trigger] all[j]),
    {
        if is_page_source(&c) {
            proof {
                let k = it.index() as int;
                assert(all[k] == c);
                assert(pred(all[k]));
                let i = first_index(all, pred)->0;
                assert(0 <= i < all.len() && pred(all[i]) && forall|j: int| 0 <= j < i ==> !pred(#[trigger] all[j]));
                assert(i == k);
            }
            match c.path {
                Some(p) => {
                    return PdfStep::Found(p);
                },
                None => {
                    return PdfStep::Fail("PDF attachment path not found for item".to_owned());
                },
            }
        }
    }
    PdfStep::Fail("PDF attachment path not found for item".to_owned())
}

/// A child the path lookup takes: an attachment whose MIME type mentions
/// `pdf` and that has a stored path.
pub open spec fn path_source_child(c: FlatItem) -> bool {
    is_attachment(c) && c.path is Some && c.content_type is Some && contains_seq(c.content_type->0@, "pdf"@)
}

/// The message given when no local PDF path is known for an item.
pub open spec fn no_local_path_message() -> Seq<char> {
    "No local PDF path found for item"@
}

fn is_path_source(c: &FlatItem) -> (r: bool)
    ensures
        r == path_source_child(*c),
{
    if !item_is_attachment(c) || c.path.is_none() {
        return false;
    }
    match &c.content_type {
        Some(t) => {
            let hay = chars_of(t.as_str());
            let needle = chars_of("pdf");
            contains_chars(&hay, &needle)
        },
        None => false,
    }
}

/// The path lookup after the item lookup: the same as for reading pages
/// (an attachment with a stored path gives it, else the children are
/// looked up).
pub fn path_lookup_after_item(key: &str, item: Result<FlatItem, String>) -> (r: PdfStep)
    ensures
        step_view(r) == after_item_spec(key@, item),
{
    read_pages_after_item(key, item)
}

/// The path lookup after the children lookup: a failed lookup answers with
/// its error; else the stored path of the first attachment whose MIME type
/// mentions `pdf`; else no local path is known.
pub fn path_lookup_after_children(children: Result<Vec<FlatItem>, String>) -> (r: PdfStep)
    ensures
        children matches Err(e) ==> step_view(r) == PdfStepModel::Fail(e@),
        children matches Ok(cs) ==> (match first_index(cs@, |c: FlatItem| path_source_child(c)) {
            Some(i) => step_view(r) == PdfStepModel::Found(cs@[i].path->0@),
            None => step_view(r) == PdfStepModel::Fail(no_local_path_message()),
        }),
{
    match children {
        Err(e) => PdfStep::Fail(e),
        Ok(cs) => first_path_source(cs),
    }
}

fn first_path_source(cs: Vec<FlatItem>) -> (r: PdfStep)
    ensures
        match first_index(cs@, |c: FlatItem| path_source_child(c)) {
            Some(i) => step_view(r) == PdfStepModel::Found(cs@[i].path->0@),
            None => step_view(r) == PdfStepModel::Fail(no_local_path_message()),
        },
{
    let ghost all = cs@;
    let ghost pred = |c: FlatItem| path_source_child(c);
    for c in it: cs.into_iter()
        invariant
            it.seq() == all,
            pred == (|c: FlatItem| path_source_child(c)),
            forall|j: int| 0 <= j < it.index() ==> !pred(#[trigger] all[j]),
    {
        if is_path_source(&c) {
            proof {
                let k = it.index() as int;
                assert(all[k] == c);
                assert(pred(all[k]));
                let i = first_index(all, pred)->0;
                assert(0 <= i < all.len() && pred(all[i]) && forall|j: int| 0 <= j < i ==> !pred(#[trigger] all[j]));
                assert(i == k);
            }
            match c.path {
                Some(p) => {
                    return PdfStep::Found(p);
                },
                None => {
                    return PdfStep::Fail("No local PDF path found for item".to_owned());
                },
            }
        }
    }
    PdfStep::Fail("No local PDF path found for item".to_owned())
}

/// Metadata is exported through Better BibTeX when the requested format is
/// `bibtex` in any ASCII case; JSON is the default.
pub open spec fn wants_bibtex_spec(format: Option<Seq<char>>) -> bool {
    match format {
        Some(f) => eq_ignore_ascii_case_spec(f, "bibtex"@),
        None => false,
    }
}

/// Whether the metadata tool answers with a Better BibTeX export.
pub fn wants_bibtex(format: Option<&str>) -> (r: bool)
    ensures
        r == wants_bibtex_spec(match format {
            Some(f) => Some(f@),
            None => None,
        }),
{
    match format {
        Some(f) => str_eq_ignore_ascii_case(f, "bibtex"),
        None => false,
    }
}

/// A note as the notes tool reports it.
#[derive(Debug)]
pub struct NoteOutput {
    /// The note's key.
    pub key: String,
    /// The note's HTML.
    pub html: String,
    /// The note as Markdown: the bridge's rendering, or the HTML when the
    /// bridge gave none.
    pub markdown: String,
}

/// `item` is a note.
pub open spec fn is_note_item(item: FlatItem) -> bool {
    item.item_type@ == "note"@
}

/// The notes among `children`, in order.
pub fn note_items(children: Vec<FlatItem>) -> (r: Vec<FlatItem>)
    ensures
        r@ == children@.filter(|c: FlatItem| is_note_item(c)),
{
    let ghost all = children@;
    let mut out: Vec<FlatItem> = Vec::new();
    for child in it: children.into_iter()
        invariant
            it.seq() == all,
            out@ == all.take(it.index() as int).filter(|c: FlatItem| is_note_item(c)),
    {
        proof {
            reveal(Seq::filter);
            let k = it.index() as int;
            assert(all.take(k + 1).drop_last() =~= all.take(k));
            assert(all.take(k + 1).last() == all[k]);
        }
        if str_eq(child.item_type.as_str(), "note") {
            out.push(child);
        }
    }
    assert(all.take(all.len() as int) =~= all);
    out
}

/// The report of one note: its HTML (empty when it has none) and its
/// Markdown, which falls back to the HTML when the bridge gave none.
pub fn note_output(note: FlatItem, bridge_markdown: Option<String>) -> (r: NoteOutput)
    ensures
        r.key == note.key,
        r.html@ == (match note.note {
            Some(h) => h@,
            None => Seq::<char>::empty(),
        }),
        r.markdown@ == (match bridge_markdown {
            Some(m) => m@,
            None => r.html@,
        }),
{
    let html = match note.note {
        Some(h) => h,
        None => String::new(),
    };
    let markdown = match bridge_markdown {
        Some(m) => m,
        None => html.clone(),
    };
    NoteOutput { key: note.key, html, markdown }
}

} // verus!
