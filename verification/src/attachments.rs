//! Where the PDF of a Zotero attachment lives, and whether it may be read.
//!
//! Imported attachments are located through their `file://` enclosure link
//! and are trusted; linked attachments are located through their stored
//! path, resolved against the linked-file base directory the companion
//! bridge reports, and must pass the allowed-root check.

use vstd::prelude::*;

use crate::error::{io_failed_with, not_found_with, ok_string, rejected_with, ZoteroMcpError};
use crate::items::{ItemType, LinkMode, ZoteroItem};
use crate::paths::{path_join, std_path_join};
use crate::security::{
    cat2, direct_paths_disabled_message, has_pdf_extension, not_pdf_message, opt_view,
    lemma_strings_view_push, outside_allowed_message, path_allowed_spec, pdf_too_large_message,
    push_string_copy, strings_view, SecurityConfig,
};
use crate::text::{chars_of, extend_str, has_prefix, starts_with_chars, str_eq, string_from_chars, take_chars};

verus! {

/// A URL reduced to what the library reads of it: its scheme and, when it
/// denotes a local file, that file's path.
pub struct ParsedUrl {
    /// The URL scheme, lower case.
    pub scheme: String,
    /// The local path the URL denotes, if any.
    pub file_path: Option<String>,
}

/// What `url::Url::parse` gives for `href`, as the scheme of the parsed URL
/// and the result of its `to_file_path` as text (a path that is not UTF-8
/// read lossily); `None` when parsing fails.
pub uninterp spec fn url_parse_view(href: Seq<char>) -> Option<(Seq<char>, Option<Seq<char>>)>;

/// Parses `href` as a URL.
///
/// Trusted: calls `url::Url::parse`, then reads the parsed URL's `scheme`
/// and `to_file_path`. A path that `to_file_path` gives is kept, read
/// lossily when it is not UTF-8 (the library holds paths as text); a URL
/// it gives no path for (such as one with a host other than `localhost`)
/// has none. Claims only that the result is `url_parse_view` of `href`.
#[verifier::external_body]
fn parse_url(href: &str) -> (r: Option<ParsedUrl>)
    ensures
        r is None ==> url_parse_view(href@) is None,
        r matches Some(u) ==> url_parse_view(href@) == Some((u.scheme@, opt_view(u.file_path))),
{
    url::Url::parse(href).ok().map(
        |u| ParsedUrl {
            scheme: u.scheme().to_owned(),
            file_path: u.to_file_path().ok().map(|p| p.to_string_lossy().into_owned()),
        },
    )
}

/// The local path of a parsed URL, when its scheme is `file`.
pub open spec fn file_path_of_spec(parsed: Option<(Seq<char>, Option<Seq<char>>)>) -> Option<Seq<char>> {
    match parsed {
        Some((scheme, path)) => if scheme == "file"@ {
            path
        } else {
            None
        },
        None => None,
    }
}

/// The local path of a `file://` URL given by its href.
pub open spec fn file_url_path_spec(href: Seq<char>) -> Option<Seq<char>> {
    file_path_of_spec(url_parse_view(href))
}

/// The local path of a parsed URL: its file path when the scheme is
/// `file`, nothing otherwise.
pub fn file_path_of(parsed: Option<ParsedUrl>) -> (r: Option<String>)
    ensures
        opt_view(r) == file_path_of_spec(match parsed {
            Some(u) => Some((u.scheme@, opt_view(u.file_path))),
            None => None,
        }),
{
    match parsed {
        Some(u) => {
            if str_eq(u.scheme.as_str(), "file") {
                u.file_path
            } else {
                None
            }
        },
        None => None,
    }
}

/// Converts a `file://` URL into a local path; other URLs and unparsable
/// text give nothing.
pub fn file_url_to_path(href: &str) -> (r: Option<String>)
    ensures
        opt_view(r) == file_url_path_spec(href@),
{
    let parsed = parse_url(href);
    file_path_of(parsed)
}

/// The local path behind an item's enclosure link.
pub open spec fn enclosure_path_spec(item: ZoteroItem) -> Option<Seq<char>> {
    match item.enclosure_href {
        Some(h) => file_url_path_spec(h@),
        None => None,
    }
}

/// The local file behind an imported attachment's enclosure link.
pub fn enclosure_file_path(item: &ZoteroItem) -> (r: Option<String>)
    ensures
        opt_view(r) == enclosure_path_spec(*item),
{
    match &item.enclosure_href {
        Some(h) => file_url_to_path(h.as_str()),
        None => None,
    }
}

/// Kinds of file roots the companion bridge reports.
#[derive(Clone, Copy, Debug, PartialEq, Eq, Structural)]
pub enum FileRootKind {
    /// Zotero's managed storage directory.
    ZoteroStorage,
    /// Zotero's base directory for linked files.
    ZoteroLinkedBase,
    /// The destination directory of the Attanger plugin.
    AttangerDest,
    /// Any other root, not used for PDF reads.
    Other,
}

/// The root kind a bridge kind name denotes (kebab-case names; anything
/// else is `Other`).
pub open spec fn root_kind_spec(name: Seq<char>) -> FileRootKind {
    if name == "zotero-storage"@ {
        FileRootKind::ZoteroStorage
    } else if name == "zotero-linked-base"@ {
        FileRootKind::ZoteroLinkedBase
    } else if name == "attanger-dest"@ {
        FileRootKind::AttangerDest
    } else {
        FileRootKind::Other
    }
}

/// Reads a bridge root kind name.
pub fn file_root_kind_from_name(name: &str) -> (r: FileRootKind)
    ensures
        r == root_kind_spec(name@),
{
    if str_eq(name, "zotero-storage") {
        FileRootKind::ZoteroStorage
    } else if str_eq(name, "zotero-linked-base") {
        FileRootKind::ZoteroLinkedBase
    } else if str_eq(name, "attanger-dest") {
        FileRootKind::AttangerDest
    } else {
        FileRootKind::Other
    }
}

/// A file root reported by the bridge and usable for PDF reads.
#[derive(Debug)]
pub struct BridgePdfRoot {
    /// The root's kind.
    pub kind: FileRootKind,
    /// The root's path.
    pub path: String,
}

/// The bridge roots kept for PDF reads: those of a known kind with a
/// non-empty path, in order, as (kind, path) pairs.
pub open spec fn accepted_roots_spec(raw: Seq<(FileRootKind, Seq<char>)>) -> Seq<(FileRootKind, Seq<char>)> {
    raw.filter(|r: (FileRootKind, Seq<char>)| r.0 != FileRootKind::Other && r.1.len() > 0)
}

/// The (kind, path) view of bridge roots.
pub open spec fn roots_view(roots: Seq<BridgePdfRoot>) -> Seq<(FileRootKind, Seq<char>)> {
    roots.map_values(|r: BridgePdfRoot| (r.kind, r.path@))
}

/// The (kind, path) view of raw reported roots.
pub open spec fn raw_roots_view(raw: Seq<(FileRootKind, String)>) -> Seq<(FileRootKind, Seq<char>)> {
    raw.map_values(|r: (FileRootKind, String)| (r.0, r.1@))
}

/// Keeps the reported roots usable for PDF reads: known kinds with a
/// non-empty path, in their order.
pub fn accept_bridge_roots(raw: Vec<(FileRootKind, String)>) -> (r: Vec<BridgePdfRoot>)
    ensures
        roots_view(r@) == accepted_roots_spec(raw_roots_view(raw@)),
{
    let ghost all = raw@;
    let mut out: Vec<BridgePdfRoot> = Vec::new();
    for entry in it: raw.into_iter()
        invariant
            it.seq() == all,
            roots_view(out@) == accepted_roots_spec(raw_roots_view(all.take(it.index() as int))),
    {
        let ghost k = it.index() as int;
        proof {
            reveal(Seq::filter);
            assert(raw_roots_view(all.take(k + 1)).drop_last() =~= raw_roots_view(all.take(k)));
            assert(raw_roots_view(all.take(k + 1)).last() == (all[k].0, all[k].1@));
        }
        let (kind, path) = entry;
        if kind != FileRootKind::Other && !path.as_str().is_empty() {
            let ghost before = out@;
            out.push(BridgePdfRoot { kind, path });
            proof {
                assert(roots_view(out@) =~= roots_view(before).push((kind, path@)));
                assert(path@.len() > 0);
            }
        } else {
            proof {
                if kind != FileRootKind::Other {
                    assert(path@.len() == 0);
                }
            }
        }
    }
    proof {
        assert(all.take(all.len() as int) =~= all);
    }
    out
}

/// The paths of the linked-file base roots among `roots`, in order.
pub open spec fn linked_base_spec(roots: Seq<(FileRootKind, Seq<char>)>) -> Seq<Seq<char>> {
    roots.filter(|r: (FileRootKind, Seq<char>)| r.0 == FileRootKind::ZoteroLinkedBase).map_values(
        |r: (FileRootKind, Seq<char>)| r.1,
    )
}

/// The paths of the bridge roots of kind `ZoteroLinkedBase`, in order.
pub fn linked_base_roots(bridge_roots: &Vec<BridgePdfRoot>) -> (r: Vec<String>)
    ensures
        r@.map_values(|s: String| s@) == linked_base_spec(roots_view(bridge_roots@)),
{
    let mut out: Vec<String> = Vec::new();
    let mut i: usize = 0;
    while i < bridge_roots.len()
        invariant
            0 <= i <= bridge_roots.len(),
            out@.map_values(|s: String| s@) == linked_base_spec(roots_view(bridge_roots@.take(i as int))),
        decreases bridge_roots.len() - i,
    {
        proof {
            reveal(Seq::filter);
            assert(roots_view(bridge_roots@.take(i + 1)).drop_last() =~= roots_view(bridge_roots@.take(i as int)));
            assert(roots_view(bridge_roots@.take(i + 1)).last() == (bridge_roots@[i as int].kind, bridge_roots@[i as int].path@));
        }
        let ghost before = out@;
        if bridge_roots[i].kind == FileRootKind::ZoteroLinkedBase {
            out.push(bridge_roots[i].path.clone());
            proof {
                let f = roots_view(bridge_roots@.take(i as int)).filter(|r: (FileRootKind, Seq<char>)| r.0 == FileRootKind::ZoteroLinkedBase);
                let g = roots_view(bridge_roots@.take(i + 1)).filter(|r: (FileRootKind, Seq<char>)| r.0 == FileRootKind::ZoteroLinkedBase);
                assert(g == f.push((bridge_roots@[i as int].kind, bridge_roots@[i as int].path@)));
                assert(g.map_values(|r: (FileRootKind, Seq<char>)| r.1) =~= f.map_values(|r: (FileRootKind, Seq<char>)| r.1).push(bridge_roots@[i as int].path@));
                assert(out@.map_values(|s: String| s@) =~= before.map_values(|s: String| s@).push(bridge_roots@[i as int].path@));
            }
        }
        i = i + 1;
    }
    proof {
        assert(bridge_roots@.take(bridge_roots.len() as int) =~= bridge_roots@);
    }
    out
}

/// `s` without its leading `/` and `\` characters.
pub open spec fn trim_leading_separators(s: Seq<char>) -> Seq<char>
    decreases s.len(),
{
    if s.len() > 0 && (s[0] == '/' || s[0] == '\\') {
        trim_leading_separators(s.drop_first())
    } else {
        s
    }
}

/// Removes the leading `/` and `\` characters of `s`.
pub fn trim_start_separators(s: &Vec<char>) -> (r: Vec<char>)
    ensures
        r@ == trim_leading_separators(s@),
{
    let mut i: usize = 0;
    assert(s@.skip(0) =~= s@);
    while i < s.len() && (s[i] == '/' || s[i] == '\\')
        invariant
            0 <= i <= s.len(),
            trim_leading_separators(s@) == trim_leading_separators(s@.skip(i as int)),
        decreases s.len() - i,
    {
        assert(s@.skip(i as int).drop_first() =~= s@.skip(i + 1));
        i = i + 1;
    }
    proof {
        if i < s.len() {
            assert(s@.skip(i as int)[0] == s@[i as int]);
        }
    }
    let mut r: Vec<char> = Vec::new();
    let mut j: usize = i;
    while j < s.len()
        invariant
            i <= j <= s.len(),
            r@ == s@.subrange(i as int, j as int),
        decreases s.len() - j,
    {
        r.push(s[j]);
        j = j + 1;
        assert(r@ =~= s@.subrange(i as int, j as int));
    }
    assert(s@.skip(i as int) =~= s@.subrange(i as int, s.len() as int));
    r
}

/// The prefix marking a path relative to the linked-file base directory.
pub open spec fn attachments_prefix() -> Seq<char> {
    "attachments:"@
}

/// Where a stored attachment path points: a path with the `attachments:`
/// prefix is joined (after dropping leading separators) onto the first
/// linked-file base root, and is unresolvable without one; any other path
/// stands as it is.
pub open spec fn resolve_linked_spec(raw: Seq<char>, roots: Seq<(FileRootKind, Seq<char>)>) -> Option<Seq<char>> {
    if has_prefix(raw, attachments_prefix()) {
        let rel = trim_leading_separators(raw.skip(attachments_prefix().len() as int));
        let bases = linked_base_spec(roots);
        if bases.len() > 0 {
            Some(std_path_join(bases[0], rel))
        } else {
            None
        }
    } else {
        Some(raw)
    }
}

/// Resolves a stored attachment path against the bridge's linked-file base
/// roots (see [`resolve_linked_spec`]).
pub fn resolve_linked_attachment_path(raw_path: &str, bridge_roots: &Vec<BridgePdfRoot>) -> (r: Option<String>)
    ensures
        opt_view(r) == resolve_linked_spec(raw_path@, roots_view(bridge_roots@)),
{
    let raw = chars_of(raw_path);
    let prefix = chars_of("attachments:");
    if !starts_with_chars(&raw, &prefix) {
        return Some(raw_path.to_owned());
    }
    let mut rest: Vec<char> = Vec::new();
    let mut i: usize = prefix.len();
    while i < raw.len()
        invariant
            prefix.len() <= i <= raw.len(),
            rest@ == raw@.subrange(prefix.len() as int, i as int),
        decreases raw.len() - i,
    {
        rest.push(raw[i]);
        i = i + 1;
        assert(rest@ =~= raw@.subrange(prefix.len() as int, i as int));
    }
    assert(rest@ =~= raw@.skip(prefix.len() as int));
    let rel = trim_start_separators(&rest);
    let rel_s = string_from_chars(&rel);
    let bases = linked_base_roots(bridge_roots);
    if bases.len() > 0 {
        proof {
            assert(bases@.map_values(|s: String| s@)[0] == bases@[0]@);
        }
        Some(path_join(bases[0].as_str(), rel_s.as_str()))
    } else {
        None
    }
}

/// A located PDF attachment file.
#[derive(Debug)]
pub enum ResolvedPdfPath {
    /// An imported file located through Zotero's own enclosure link.
    Trusted(String),
    /// A linked file that must lie under an allowed root.
    NeedsRootCheck(String),
}

/// The located file of either kind.
pub open spec fn resolved_path_spec(p: ResolvedPdfPath) -> Seq<char> {
    match p {
        ResolvedPdfPath::Trusted(s) => s@,
        ResolvedPdfPath::NeedsRootCheck(s) => s@,
    }
}

/// The (trusted, path) view of an optional located file.
pub open spec fn resolved_view(p: Option<ResolvedPdfPath>) -> Option<(bool, Seq<char>)> {
    match p {
        Some(ResolvedPdfPath::Trusted(s)) => Some((true, s@)),
        Some(ResolvedPdfPath::NeedsRootCheck(s)) => Some((false, s@)),
        None => None,
    }
}

impl ResolvedPdfPath {
    /// The located path, whichever its kind.
    pub fn into_path(self) -> (r: String)
        ensures
            r@ == resolved_path_spec(self),
    {
        match self {
            ResolvedPdfPath::Trusted(path) => path,
            ResolvedPdfPath::NeedsRootCheck(path) => path,
        }
    }
}

/// Where an item's PDF lives: nothing for a non-attachment; for an
/// imported file its enclosure path (trusted); otherwise, for a linked
/// file or an attachment of type `application/pdf`, its resolved stored
/// path (to be checked).
pub open spec fn resolve_attachment_spec(item: ZoteroItem, roots: Seq<(FileRootKind, Seq<char>)>) -> Option<(bool, Seq<char>)> {
    if item.item_type != ItemType::Attachment {
        None
    } else if item.link_mode == Some(LinkMode::ImportedFile) && enclosure_path_spec(item) is Some {
        Some((true, enclosure_path_spec(item)->0))
    } else {
        let linked = match item.path {
            Some(p) => resolve_linked_spec(p@, roots),
            None => None,
        };
        let is_pdf = match item.content_type {
            Some(c) => c@ == "application/pdf"@,
            None => false,
        };
        if (item.link_mode == Some(LinkMode::LinkedFile) || is_pdf) && linked is Some {
            Some((false, linked->0))
        } else {
            None
        }
    }
}

fn linked_path_of(item: &ZoteroItem, bridge_roots: &Vec<BridgePdfRoot>) -> (r: Option<String>)
    ensures
        opt_view(r) == (match item.path {
            Some(p) => resolve_linked_spec(p@, roots_view(bridge_roots@)),
            None => None,
        }),
{
    match &item.path {
        Some(p) => resolve_linked_attachment_path(p.as_str(), bridge_roots),
        None => None,
    }
}

/// Locates the PDF of an attachment item (see [`resolve_attachment_spec`]).
pub fn resolve_attachment_pdf_path(item: &ZoteroItem, bridge_roots: &Vec<BridgePdfRoot>) -> (r: Option<ResolvedPdfPath>)
    ensures
        resolved_view(r) == resolve_attachment_spec(*item, roots_view(bridge_roots@)),
{
    if item.item_type != ItemType::Attachment {
        return None;
    }
    if item.link_mode == Some(LinkMode::ImportedFile) {
        if let Some(path) = enclosure_file_path(item) {
            return Some(ResolvedPdfPath::Trusted(path));
        }
    }
    if item.link_mode == Some(LinkMode::LinkedFile) {
        if let Some(path) = linked_path_of(item, bridge_roots) {
            return Some(ResolvedPdfPath::NeedsRootCheck(path));
        }
    }
    let is_pdf = match &item.content_type {
        Some(c) => str_eq(c.as_str(), "application/pdf"),
        None => false,
    };
    if is_pdf {
        if let Some(path) = linked_path_of(item, bridge_roots) {
            return Some(ResolvedPdfPath::NeedsRootCheck(path));
        }
    }
    None
}

/// The first child whose PDF can be located, located.
pub open spec fn find_pdf_spec(children: Seq<ZoteroItem>, roots: Seq<(FileRootKind, Seq<char>)>) -> Option<(bool, Seq<char>)>
    decreases children.len(),
{
    if children.len() == 0 {
        None
    } else if resolve_attachment_spec(children[0], roots) is Some {
        resolve_attachment_spec(children[0], roots)
    } else {
        find_pdf_spec(children.drop_first(), roots)
    }
}

/// Locates the PDF of the first child item that has one.
pub fn find_pdf_path(children: &Vec<ZoteroItem>, bridge_roots: &Vec<BridgePdfRoot>) -> (r: Option<ResolvedPdfPath>)
    ensures
        resolved_view(r) == find_pdf_spec(children@, roots_view(bridge_roots@)),
{
    let mut i: usize = 0;
    assert(children@.skip(0) =~= children@);
    while i < children.len()
        invariant
            0 <= i <= children.len(),
            find_pdf_spec(children@, roots_view(bridge_roots@)) == find_pdf_spec(children@.skip(i as int), roots_view(bridge_roots@)),
        decreases children.len() - i,
    {
        let found = resolve_attachment_pdf_path(&children[i], bridge_roots);
        proof {
            assert(children@.skip(i as int)[0] == children@[i as int]);
            assert(children@.skip(i as int).drop_first() =~= children@.skip(i + 1));
        }
        if found.is_some() {
            return found;
        }
        i = i + 1;
    }
    proof {
        assert(children@.skip(children.len() as int).len() == 0);
    }
    None
}


/// The message given when no PDF can be located for `key`.
pub open spec fn no_pdf_for_key_message(key: Seq<char>) -> Seq<char> {
    "No PDF file path found for key: "@ + key
}

/// The optional located file of an item key: the item's own PDF when it
/// is an attachment, else the first child PDF (`children` is `None` when
/// they could not be fetched).
pub open spec fn locate_item_pdf_spec(
    item: ZoteroItem,
    children: Option<Seq<ZoteroItem>>,
    roots: Seq<(FileRootKind, Seq<char>)>,
) -> Option<(bool, Seq<char>)> {
    if item.item_type == ItemType::Attachment {
        resolve_attachment_spec(item, roots)
    } else {
        match children {
            Some(c) => find_pdf_spec(c, roots),
            None => None,
        }
    }
}

/// Locates the PDF for an item key that named `item`; `children` are the
/// item's children, `None` when they could not be fetched. Nothing found is
/// a `NotFound` error naming the key.
pub fn locate_item_pdf(
    key: &str,
    item: &ZoteroItem,
    children: Option<Vec<ZoteroItem>>,
    bridge_roots: &Vec<BridgePdfRoot>,
) -> (r: Result<ResolvedPdfPath, ZoteroMcpError>)
    ensures
        locate_item_pdf_spec(*item, match children {
            Some(c) => Some(c@),
            None => None,
        }, roots_view(bridge_roots@)) matches Some(found) ==> (r matches Ok(p) && resolved_view(Some(p)) == Some(found)),
        locate_item_pdf_spec(*item, match children {
            Some(c) => Some(c@),
            None => None,
        }, roots_view(bridge_roots@)) is None ==> not_found_with(r, no_pdf_for_key_message(key@)),
{
    let resolved = if item.item_type == ItemType::Attachment {
        resolve_attachment_pdf_path(item, bridge_roots)
    } else {
        match children {
            Some(c) => find_pdf_path(&c, bridge_roots),
            None => None,
        }
    };
    match resolved {
        Some(p) => Ok(p),
        None => Err(ZoteroMcpError::NotFound(cat2("No PDF file path found for key: ", key))),
    }
}

/// The path reported for an item by the path lookup: an attachment's
/// stored path as it is, else its located file; for a parent item, the
/// first child PDF. No bridge roots are consulted.
pub open spec fn pdf_path_for_item_spec(item: ZoteroItem, children: Seq<ZoteroItem>) -> Option<Seq<char>> {
    if item.item_type == ItemType::Attachment {
        match item.path {
            Some(p) => Some(p@),
            None => match resolve_attachment_spec(item, Seq::empty()) {
                Some((_, p)) => Some(p),
                None => None,
            },
        }
    } else {
        match find_pdf_spec(children, Seq::empty()) {
            Some((_, p)) => Some(p),
            None => None,
        }
    }
}

/// The path the path lookup reports for `item` (see
/// [`pdf_path_for_item_spec`]); `children` are only read for a parent
/// item.
pub fn pdf_path_for_item(item: &ZoteroItem, children: &Vec<ZoteroItem>) -> (r: Option<String>)
    ensures
        opt_view(r) == pdf_path_for_item_spec(*item, children@),
{
    let no_roots: Vec<BridgePdfRoot> = Vec::new();
    proof {
        assert(roots_view(no_roots@) =~= Seq::<(FileRootKind, Seq<char>)>::empty());
    }
    if item.item_type == ItemType::Attachment {
        match &item.path {
            Some(p) => Some(p.clone()),
            None => match resolve_attachment_pdf_path(item, &no_roots) {
                Some(found) => Some(found.into_path()),
                None => None,
            },
        }
    } else {
        match find_pdf_path(children, &no_roots) {
            Some(found) => Some(found.into_path()),
            None => None,
        }
    }
}

fn append_strings(a: &Vec<String>, b: &Vec<String>) -> (r: Vec<String>)
    ensures
        strings_view(r@) == strings_view(a@) + strings_view(b@),
{
    let mut r: Vec<String> = Vec::new();
    let mut i: usize = 0;
    while i < a.len()
        invariant
            0 <= i <= a.len(),
            strings_view(r@) == strings_view(a@.take(i as int)),
        decreases a.len() - i,
    {
        push_string_copy(&mut r, &a[i]);
        proof {
            assert(a@.take(i + 1) == a@.take(i as int).push(a@[i as int]));
            lemma_strings_view_push(a@.take(i as int), a@[i as int]);
        }
        i = i + 1;
    }
    assert(a@.take(a.len() as int) =~= a@);
    let mut j: usize = 0;
    while j < b.len()
        invariant
            0 <= j <= b.len(),
            strings_view(r@) == strings_view(a@) + strings_view(b@.take(j as int)),
        decreases b.len() - j,
    {
        push_string_copy(&mut r, &b[j]);
        proof {
            assert(b@.take(j + 1) == b@.take(j as int).push(b@[j as int]));
            lemma_strings_view_push(b@.take(j as int), b@[j as int]);
            assert(strings_view(a@) + strings_view(b@.take(j as int)).push(b@[j as int]@) =~= (strings_view(a@) + strings_view(b@.take(j as int))).push(b@[j as int]@));
        }
        j = j + 1;
    }
    assert(b@.take(b.len() as int) =~= b@);
    r
}

/// Decides a PDF read. `canonical` is the outcome of canonicalizing the
/// requested path; `read_roots` and `bridge_roots` are the canonical forms
/// of the configured read directories and of the bridge's PDF roots;
/// `pdf_len` is the length of the canonical file. A path under either kind
/// of root is read if it is a PDF within the size limit. Otherwise a path
/// the user gave directly (`direct_input`) is judged again against the
/// configured directories alone, and only when direct paths are enabled.
pub fn validate_pdf_read_path(
    config: &SecurityConfig,
    canonical: Result<String, String>,
    read_roots: &Vec<String>,
    bridge_roots: &Vec<String>,
    direct_input: bool,
    pdf_len: Result<u64, String>,
) -> (r: Result<String, ZoteroMcpError>)
    ensures
        canonical matches Err(e) ==> (if direct_input && !config.direct_file_paths {
            rejected_with(r, direct_paths_disabled_message())
        } else {
            io_failed_with(r, e@)
        }),
        canonical matches Ok(c) ==> (!path_allowed_spec(c@, strings_view(read_roots@) + strings_view(bridge_roots@)) ==> (if direct_input && !config.direct_file_paths {
            rejected_with(r, direct_paths_disabled_message())
        } else {
            rejected_with(r, outside_allowed_message("PDF read"@, c@))
        })),
        canonical matches Ok(c) ==> (path_allowed_spec(c@, strings_view(read_roots@) + strings_view(bridge_roots@)) ==> (
            (!has_pdf_extension(c@) ==> rejected_with(r, not_pdf_message(c@)))
            && (has_pdf_extension(c@) ==> (pdf_len matches Err(e) ==> io_failed_with(r, e@)))
            && (has_pdf_extension(c@) ==> (pdf_len matches Ok(n) ==> (n <= config.max_pdf_bytes ==> ok_string(r, c@))))
            && (has_pdf_extension(c@) ==> (pdf_len matches Ok(n) ==> (n > config.max_pdf_bytes ==> rejected_with(r, pdf_too_large_message(c@, config.max_pdf_bytes as nat)))))
        )),
{
    let all_roots = append_strings(read_roots, bridge_roots);
    let (first, retry) = match canonical {
        Ok(c) => (Ok(c.clone()), Ok(c)),
        Err(e) => (Err(e.clone()), Err(e)),
    };
    match config.check_existing_read_path(first, &all_roots, "PDF read") {
        Ok(checked) => {
            match config.check_pdf_file(checked.as_str(), pdf_len) {
                Ok(()) => Ok(checked),
                Err(e) => Err(e),
            }
        },
        Err(err) => {
            if direct_input {
                if let Err(e) = config.check_direct_file_paths_enabled() {
                    return Err(e);
                }
                let checked = match config.check_existing_read_path(retry, read_roots, "PDF read") {
                    Ok(c) => c,
                    Err(e) => {
                        return Err(e);
                    },
                };
                proof {
                    assert(strings_view(all_roots@) == strings_view(read_roots@) + strings_view(bridge_roots@));
                    let i = choose|i: int| 0 <= i < strings_view(read_roots@).len() && crate::paths::std_path_starts_with(checked@, #[trigger] strings_view(read_roots@)[i]);
                    assert((strings_view(read_roots@) + strings_view(bridge_roots@))[i] == strings_view(read_roots@)[i]);
                    assert(false);
                }
                match config.check_pdf_file(checked.as_str(), pdf_len) {
                    Ok(()) => Ok(checked),
                    Err(e) => Err(e),
                }
            } else {
                Err(err)
            }
        },
    }
}

/// Decides a read of a trusted imported file: it must canonicalize and be
/// a PDF within the size limit.
pub fn check_trusted_pdf(
    config: &SecurityConfig,
    canonical: Result<String, String>,
    pdf_len: Result<u64, String>,
) -> (r: Result<String, ZoteroMcpError>)
    ensures
        canonical matches Err(e) ==> io_failed_with(r, e@),
        canonical matches Ok(c) ==> (
            (!has_pdf_extension(c@) ==> rejected_with(r, not_pdf_message(c@)))
            && (has_pdf_extension(c@) ==> (pdf_len matches Err(e) ==> io_failed_with(r, e@)))
            && (has_pdf_extension(c@) ==> (pdf_len matches Ok(n) ==> (n <= config.max_pdf_bytes ==> ok_string(r, c@))))
            && (has_pdf_extension(c@) ==> (pdf_len matches Ok(n) ==> (n > config.max_pdf_bytes ==> rejected_with(r, pdf_too_large_message(c@, config.max_pdf_bytes as nat)))))
        ),
{
    let checked = match canonical {
        Ok(c) => c,
        Err(e) => {
            return Err(ZoteroMcpError::Io(e));
        },
    };
    match config.check_pdf_file(checked.as_str(), pdf_len) {
        Ok(()) => Ok(checked),
        Err(e) => Err(e),
    }
}

/// A stored path without the `attachments:` prefix is used as it is,
/// whatever the bridge reports.
pub proof fn law_unprefixed_paths_resolve_to_themselves(raw: Seq<char>, roots: Seq<(FileRootKind, Seq<char>)>)
    requires
        !has_prefix(raw, attachments_prefix()),
    ensures
        resolve_linked_spec(raw, roots) == Some(raw),
{
}

/// Only an imported file located through Zotero's enclosure link is ever
/// trusted; every other located file must pass the allowed-root check.
pub proof fn law_only_imported_enclosures_are_trusted(item: ZoteroItem, roots: Seq<(FileRootKind, Seq<char>)>)
    ensures
        resolve_attachment_spec(item, roots) matches Some((trusted, p)) ==> (trusted ==> (
            item.item_type == ItemType::Attachment
            && item.link_mode == Some(LinkMode::ImportedFile)
            && enclosure_path_spec(item) == Some(p)
        )),
{
}

/// Items other than attachments never locate a file of their own.
pub proof fn law_non_attachments_have_no_pdf(item: ZoteroItem, roots: Seq<(FileRootKind, Seq<char>)>)
    requires
        item.item_type != ItemType::Attachment,
    ensures
        resolve_attachment_spec(item, roots) is None,
{
}

/// `s` without its trailing `/` characters.
pub open spec fn trim_trailing_slashes(s: Seq<char>) -> Seq<char>
    decreases s.len(),
{
    if s.len() > 0 && s.last() == '/' {
        trim_trailing_slashes(s.drop_last())
    } else {
        s
    }
}

/// The URL of the bridge's file roots endpoint under the Better Notes
/// bridge URL `base`.
pub fn bridge_file_roots_url(base: &str) -> (r: String)
    ensures
        r@ == trim_trailing_slashes(base@) + "/file-roots"@,
{
    let v = chars_of(base);
    let mut n: usize = v.len();
    assert(v@.take(n as int) =~= v@);
    while n > 0 && v[n - 1] == '/'
        invariant
            n <= v.len(),
            v@ == base@,
            trim_trailing_slashes(v@.take(n as int)) == trim_trailing_slashes(v@),
        decreases n,
    {
        assert(v@.take(n as int).drop_last() =~= v@.take(n - 1));
        n = n - 1;
    }
    let mut out = take_chars(&v, n);
    extend_str(&mut out, "/file-roots");
    string_from_chars(&out)
}

/// The next step of locating and checking the PDF to read for a request.
#[derive(Debug)]
pub enum PdfResolveStep {
    /// The request named an existing file: check it as a direct path.
    CheckDirect(String),
    /// Look the item with this key up.
    FetchItem(String),
    /// Look the children of the item with this key up.
    FetchChildren(String),
    /// A linked file was located: check it against the allowed roots.
    CheckLinked(String),
    /// Zotero's own enclosure located the file: check it as trusted.
    CheckTrusted(String),
    /// Answer with this error.
    Fail(ZoteroMcpError),
}

/// `r` is the step a located file (or none) leads to for `key`.
pub open spec fn located_step(r: PdfResolveStep, found: Option<(bool, Seq<char>)>, key: Seq<char>) -> bool {
    match found {
        Some((true, p)) => r matches PdfResolveStep::CheckTrusted(q) && q@ == p,
        Some((false, p)) => r matches PdfResolveStep::CheckLinked(q) && q@ == p,
        None => r matches PdfResolveStep::Fail(ZoteroMcpError::NotFound(m)) && m@ == no_pdf_for_key_message(key),
    }
}

fn step_for(found: Option<ResolvedPdfPath>, key: &str) -> (r: PdfResolveStep)
    ensures
        located_step(r, resolved_view(found), key@),
{
    match found {
        Some(ResolvedPdfPath::Trusted(p)) => PdfResolveStep::CheckTrusted(p),
        Some(ResolvedPdfPath::NeedsRootCheck(p)) => PdfResolveStep::CheckLinked(p),
        None => PdfResolveStep::Fail(ZoteroMcpError::NotFound(cat2("No PDF file path found for key: ", key))),
    }
}

/// The first step for a request `input`, a path or an item key: a path
/// that exists on disk is checked directly, anything else is looked up as
/// an item key.
pub fn resolve_pdf_start(input: &str, exists: bool) -> (r: PdfResolveStep)
    ensures
        exists ==> (r matches PdfResolveStep::CheckDirect(p) && p@ == input@),
        !exists ==> (r matches PdfResolveStep::FetchItem(k) && k@ == input@),
{
    if exists {
        PdfResolveStep::CheckDirect(input.to_owned())
    } else {
        PdfResolveStep::FetchItem(input.to_owned())
    }
}

/// The step after looking the item `key` up: a failed lookup is the
/// answer; an attachment leads to its own located file (see
/// [`resolve_attachment_spec`]); any other item to a lookup of its
/// children.
pub fn resolve_pdf_after_item(
    key: &str,
    item: Result<ZoteroItem, ZoteroMcpError>,
    bridge_roots: &Vec<BridgePdfRoot>,
) -> (r: PdfResolveStep)
    ensures
        item matches Err(e) ==> (r matches PdfResolveStep::Fail(f) && f == e),
        item matches Ok(it) ==> (it.item_type != ItemType::Attachment ==> (r matches PdfResolveStep::FetchChildren(k) && k@ == key@)),
        item matches Ok(it) ==> (it.item_type == ItemType::Attachment ==> located_step(r, resolve_attachment_spec(it, roots_view(bridge_roots@)), key@)),
{
    match item {
        Err(e) => PdfResolveStep::Fail(e),
        Ok(it) => {
            if it.item_type == ItemType::Attachment {
                step_for(resolve_attachment_pdf_path(&it, bridge_roots), key)
            } else {
                PdfResolveStep::FetchChildren(key.to_owned())
            }
        },
    }
}

/// The step after looking up the children of `key` (`None` when they
/// could not be fetched): the first child PDF (see [`find_pdf_spec`]), or
/// a `NotFound` answer.
pub fn resolve_pdf_after_children(
    key: &str,
    children: Option<Vec<ZoteroItem>>,
    bridge_roots: &Vec<BridgePdfRoot>,
) -> (r: PdfResolveStep)
    ensures
        located_step(r, match children {
            Some(c) => find_pdf_spec(c@, roots_view(bridge_roots@)),
            None => None,
        }, key@),
{
    match children {
        Some(c) => step_for(find_pdf_path(&c, bridge_roots), key),
        None => step_for(None, key),
    }
}

/// Law: among the children of a parent item, the earliest child that
/// locates a file decides. When child `i` locates a file and no child
/// before it does, the parent's PDF is exactly child `i`'s.
pub proof fn law_earliest_child_pdf_wins(children: Seq<ZoteroItem>, roots: Seq<(FileRootKind, Seq<char>)>, i: int)
    requires
        0 <= i < children.len(),
        resolve_attachment_spec(children[i], roots) is Some,
        forall|j: int| 0 <= j < i ==> resolve_attachment_spec(#[trigger] children[j], roots) is None,
    ensures
        find_pdf_spec(children, roots) == resolve_attachment_spec(children[i], roots),
    decreases i,
{
    if i > 0 {
        let rest = children.drop_first();
        assert(resolve_attachment_spec(children[0], roots) is None);
        assert forall|j: int| 0 <= j < i - 1 implies resolve_attachment_spec(#[trigger] rest[j], roots) is None by {
            assert(rest[j] == children[j + 1]);
        }
        assert(rest[i - 1] == children[i]);
        law_earliest_child_pdf_wins(rest, roots, i - 1);
    }
}

/// Law: a parent item whose children locate no file has no PDF, and one
/// whose PDF is found has it from one of its children.
pub proof fn law_child_pdf_comes_from_a_child(children: Seq<ZoteroItem>, roots: Seq<(FileRootKind, Seq<char>)>)
    ensures
        (forall|j: int| 0 <= j < children.len() ==> resolve_attachment_spec(#[trigger] children[j], roots) is None)
            ==> find_pdf_spec(children, roots) is None,
        find_pdf_spec(children, roots) is Some ==> exists|i: int| 0 <= i < children.len()
            && find_pdf_spec(children, roots) == resolve_attachment_spec(#[trigger] children[i], roots),
    decreases children.len(),
{
    if children.len() > 0 {
        let rest = children.drop_first();
        law_child_pdf_comes_from_a_child(rest, roots);
        if forall|j: int| 0 <= j < children.len() ==> resolve_attachment_spec(#[trigger] children[j], roots) is None {
            assert(resolve_attachment_spec(children[0], roots) is None);
            assert forall|j: int| 0 <= j < rest.len() implies resolve_attachment_spec(#[trigger] rest[j], roots) is None by {
                assert(rest[j] == children[j + 1]);
            }
        }
        if find_pdf_spec(children, roots) is Some && resolve_attachment_spec(children[0], roots) is None {
            let i = choose|i: int| 0 <= i < rest.len() && find_pdf_spec(rest, roots) == resolve_attachment_spec(#[trigger] rest[i], roots);
            assert(rest[i] == children[i + 1]);
        }
    }
}

} // verus!
