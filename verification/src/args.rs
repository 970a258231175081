//! Arguments of the item search and item metadata tools, with the defaults
//! the tools apply.

use vstd::prelude::*;

use crate::error::ZoteroMcpError;
use crate::security::cat2;
use crate::text::str_eq;

verus! {

/// Items returned by a search when no limit is given.
pub const DEFAULT_SEARCH_LIMIT: usize = 20;

/// The format item metadata is returned in.
#[derive(Clone, Copy, Debug, PartialEq, Eq, Structural)]
pub enum MetadataFormat {
    /// Zotero's JSON item data.
    Json,
    /// A Better BibTeX entry.
    Bibtex,
}

impl Default for MetadataFormat {
    fn default() -> (r: Self)
        ensures
            r == MetadataFormat::Json,
    {
        MetadataFormat::Json
    }
}

/// Arguments of the item metadata tool.
#[derive(Debug)]
pub struct GetItemMetadataArgs {
    /// Key of the item.
    pub item_key: String,
    /// Requested format; JSON when absent.
    pub format: Option<MetadataFormat>,
}

impl GetItemMetadataArgs {
    /// Arguments asking for the JSON metadata of `item_key`.
    pub fn json(item_key: String) -> (r: Self)
        ensures
            r.item_key == item_key,
            r.format is None,
    {
        GetItemMetadataArgs { item_key, format: None }
    }

    /// The format to answer in: the requested one, JSON by default.
    pub fn resolved_format(&self) -> (r: MetadataFormat)
        ensures
            r == (match self.format {
                Some(f) => f,
                None => MetadataFormat::Json,
            }),
    {
        match self.format {
            Some(f) => f,
            None => MetadataFormat::Json,
        }
    }
}

/// Arguments of the full-text item search.
#[derive(Debug)]
pub struct SearchItemsArgs {
    /// Query matched against title, creator, year or full text.
    pub query: String,
    /// Collection to search within.
    pub collection_key: Option<String>,
    /// Zero-based offset into the results; 0 when absent.
    pub start: Option<usize>,
    /// Most items to return; `DEFAULT_SEARCH_LIMIT` when absent.
    pub limit: Option<usize>,
}

impl SearchItemsArgs {
    /// Search arguments for the connector `search` tool: the whole library,
    /// from the first result, at most `DEFAULT_SEARCH_LIMIT` items.
    pub fn for_connector(query: String) -> (r: Self)
        ensures
            r.query == query,
            r.collection_key is None,
            r.start is None,
            r.limit == Some(DEFAULT_SEARCH_LIMIT),
    {
        SearchItemsArgs { query, collection_key: None, start: None, limit: Some(DEFAULT_SEARCH_LIMIT) }
    }

    /// The offset to search from.
    pub fn offset(&self) -> (r: usize)
        ensures
            r == (match self.start {
                Some(s) => s,
                None => 0,
            }),
    {
        match self.start {
            Some(s) => s,
            None => 0,
        }
    }

    /// The number of items to ask for.
    pub fn page_size(&self) -> (r: usize)
        ensures
            r == (match self.limit {
                Some(l) => l,
                None => DEFAULT_SEARCH_LIMIT,
            }),
    {
        match self.limit {
            Some(l) => l,
            None => DEFAULT_SEARCH_LIMIT,
        }
    }
}

/// Items listed by the recent-items tool when no limit is given.
pub const DEFAULT_RECENT_LIMIT: usize = 10;

/// Most items the recent-items tool lists.
pub const MAX_RECENT_LIMIT: usize = 100;

/// Items listed by the unfiled-items tool when no limit is given.
pub const DEFAULT_UNFILED_LIMIT: usize = 50;

/// Tags listed when no limit is given.
pub const DEFAULT_TAG_LIMIT: usize = 100;

/// Hits returned by the local database and semantic searches when no limit
/// is given.
pub const DEFAULT_LOCAL_SEARCH_LIMIT: usize = 20;

/// Items covered by one coverage page when no limit is given.
pub const DEFAULT_COVERAGE_LIMIT: usize = 100;

/// Most items covered by one coverage page.
pub const MAX_COVERAGE_LIMIT: usize = 500;

/// The number of entries to ask for: the requested count, or `default`
/// when none was requested, never more than `cap`.
pub fn capped_limit(requested: Option<usize>, default: usize, cap: usize) -> (r: usize)
    ensures
        r == (match requested {
            Some(n) => if n < cap { n } else { cap },
            None => if default < cap { default } else { cap },
        }),
{
    let n = match requested {
        Some(n) => n,
        None => default,
    };
    if n < cap { n } else { cap }
}

/// The number of entries to ask for: the requested count, or `default`.
pub fn limit_or(requested: Option<usize>, default: usize) -> (r: usize)
    ensures
        r == (match requested {
            Some(n) => n,
            None => default,
        }),
{
    match requested {
        Some(n) => n,
        None => default,
    }
}

/// Arguments of the library coverage report.
#[derive(Debug)]
pub struct LibraryCoverageArgs {
    /// Collection to report on; the whole library when absent.
    pub collection_key: Option<String>,
    /// Zero-based offset; 0 when absent.
    pub start: Option<usize>,
    /// Items per page; `DEFAULT_COVERAGE_LIMIT` when absent, at most
    /// `MAX_COVERAGE_LIMIT`.
    pub limit: Option<usize>,
}

impl LibraryCoverageArgs {
    /// The offset of the page.
    pub fn offset(&self) -> (r: usize)
        ensures
            r == (match self.start {
                Some(s) => s,
                None => 0,
            }),
    {
        limit_or(self.start, 0)
    }

    /// The size of the page.
    pub fn page_size(&self) -> (r: usize)
        ensures
            r == (match self.limit {
                Some(n) => if n < MAX_COVERAGE_LIMIT { n } else { MAX_COVERAGE_LIMIT },
                None => DEFAULT_COVERAGE_LIMIT,
            }),
    {
        capped_limit(self.limit, DEFAULT_COVERAGE_LIMIT, MAX_COVERAGE_LIMIT)
    }
}

/// The title to look an existing copy up by before adding an item by
/// identifier: the resolved title, unless it is empty (then no lookup is
/// made).
pub fn duplicate_probe(title: &str) -> (r: Option<String>)
    ensures
        title@.len() == 0 ==> r is None,
        title@.len() > 0 ==> (r matches Some(t) && t@ == title@),
{
    if title.is_empty() {
        None
    } else {
        Some(title.to_owned())
    }
}

/// The collections of an item added by identifier: those of the resolved
/// metadata, then the requested collection, if any.
pub fn collections_for_new_item(draft: Vec<String>, requested: Option<String>) -> (r: Vec<String>)
    ensures
        r@ == (match requested {
            Some(c) => draft@.push(c),
            None => draft@,
        }),
{
    let mut out = draft;
    if let Some(c) = requested {
        out.push(c);
    }
    out
}

/// The message given when Better BibTeX has no citation key for an item.
pub open spec fn no_citekey_message(item_key: Seq<char>) -> Seq<char> {
    "no citation key for item "@ + item_key
}

/// The citation key Better BibTeX reported for `item_key` among
/// `citekeys` (item key, citation key if any), or a Better BibTeX error
/// when the item is not listed or has none.
pub fn citation_key_for(item_key: &str, citekeys: &Vec<(String, Option<String>)>) -> (r: Result<String, ZoteroMcpError>)
    ensures
        (exists|i: int| 0 <= i < citekeys@.len() && (#[trigger] citekeys@[i]).0@ == item_key@ && citekeys@[i].1 is Some
            && forall|j: int| 0 <= j < i ==> (#[trigger] citekeys@[j]).0@ != item_key@)
            ==> (r matches Ok(k) && exists|i: int| 0 <= i < citekeys@.len() && (#[trigger] citekeys@[i]).0@ == item_key@
                && citekeys@[i].1 == Some(k) && forall|j: int| 0 <= j < i ==> (#[trigger] citekeys@[j]).0@ != item_key@),
        r matches Ok(k) ==> exists|i: int| 0 <= i < citekeys@.len() && (#[trigger] citekeys@[i]).0@ == item_key@
            && citekeys@[i].1 == Some(k) && forall|j: int| 0 <= j < i ==> (#[trigger] citekeys@[j]).0@ != item_key@,
        r is Err ==> (r matches Err(ZoteroMcpError::BetterBibTeX(m)) && m@ == no_citekey_message(item_key@)),
{
    let mut i: usize = 0;
    while i < citekeys.len()
        invariant
            0 <= i <= citekeys.len(),
            forall|j: int| 0 <= j < i ==> (#[trigger] citekeys@[j]).0@ != item_key@,
        decreases citekeys.len() - i,
    {
        if str_eq(citekeys[i].0.as_str(), item_key) {
            match &citekeys[i].1 {
                Some(k) => {
                    return Ok(k.clone());
                },
                None => {
                    return Err(ZoteroMcpError::BetterBibTeX(cat2("no citation key for item ", item_key)));
                },
            }
        }
        i = i + 1;
    }
    Err(ZoteroMcpError::BetterBibTeX(cat2("no citation key for item ", item_key)))
}

/// What the add-by-identifier tool does once the duplicate search is over.
#[derive(Debug)]
pub enum AddStep {
    /// Answer with this existing item (its JSON).
    Answer(String),
    /// Create the item, filed in these collections.
    Create(Vec<String>),
}

/// The step after the duplicate search: the first item the search found is
/// the answer; when it found none or failed (or no search was made,
/// `Ok(None)`), the item is created in the resolved collections plus the
/// requested one.
pub fn add_after_search(found: Result<Option<String>, String>, draft_collections: Vec<String>, requested: Option<String>) -> (r: AddStep)
    ensures
        found matches Ok(Some(j)) ==> (r matches AddStep::Answer(a) && a == j),
        !(found matches Ok(Some(_))) ==> (r matches AddStep::Create(c) && c@ == (match requested {
            Some(k) => draft_collections@.push(k),
            None => draft_collections@,
        })),
{
    match found {
        Ok(Some(j)) => AddStep::Answer(j),
        _ => AddStep::Create(collections_for_new_item(draft_collections, requested)),
    }
}

} // verus!
