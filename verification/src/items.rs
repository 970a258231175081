//! The Zotero items the library reasons about: the fields its decisions
//! read, and the item's JSON carried through unchanged for output.

use vstd::prelude::*;

verus! {

/// The kinds of Zotero items the library tells apart.
#[derive(Clone, Copy, Debug, PartialEq, Eq, Structural)]
pub enum ItemType {
    /// A file or link attached to a parent item.
    Attachment,
    /// A note.
    Note,
    /// A PDF annotation.
    Annotation,
    /// Any regular item (journal article, book, ...).
    Other,
}

/// How an attachment stores its file.
#[derive(Clone, Copy, Debug, PartialEq, Eq, Structural)]
pub enum LinkMode {
    /// A file copied into Zotero's storage.
    ImportedFile,
    /// A web page snapshot in Zotero's storage.
    ImportedUrl,
    /// A file left in place and linked by path.
    LinkedFile,
    /// A link to a URL.
    LinkedUrl,
    /// An image embedded in a note.
    EmbeddedImage,
}

/// A Zotero item as the library sees it.
#[derive(Debug)]
pub struct ZoteroItem {
    /// The item key.
    pub key: String,
    /// The item's kind.
    pub item_type: ItemType,
    /// The attachment's link mode, for attachments that have one.
    pub link_mode: Option<LinkMode>,
    /// The attachment's stored path (`attachments:` relative or absolute).
    pub path: Option<String>,
    /// The attachment's MIME type.
    pub content_type: Option<String>,
    /// The `href` of the item's `enclosure` link, when it is a string.
    pub enclosure_href: Option<String>,
    /// The item's JSON, carried through unchanged.
    pub json: String,
}

/// `item` is a note.
pub open spec fn is_note(item: ZoteroItem) -> bool {
    item.item_type == ItemType::Note
}

/// The notes among `items`, in their order.
pub open spec fn notes_spec(items: Seq<ZoteroItem>) -> Seq<ZoteroItem> {
    items.filter(|i: ZoteroItem| is_note(i))
}

/// Keeps the child items that are notes, in their order.
pub fn filter_notes(children: Vec<ZoteroItem>) -> (r: Vec<ZoteroItem>)
    ensures
        r@ == notes_spec(children@),
{
    let ghost all = children@;
    let mut out: Vec<ZoteroItem> = Vec::new();
    for child in it: children.into_iter()
        invariant
            it.seq() == all,
            out@ == notes_spec(all.take(it.index() as int)),
    {
        proof {
            reveal(Seq::filter);
            let k = it.index() as int;
            assert(all.take(k + 1).drop_last() =~= all.take(k));
            assert(all.take(k + 1).last() == all[k]);
        }
        let keep = child.item_type == ItemType::Note;
        if keep {
            out.push(child);
        }
    }
    proof {
        assert(all.take(all.len() as int) =~= all);
    }
    out
}

/// The child notes of an item, for the `notes` resource.
pub fn note_children(children: Vec<ZoteroItem>) -> (r: Vec<ZoteroItem>)
    ensures
        r@ == notes_spec(children@),
{
    filter_notes(children)
}

} // verus!
