//! Resource URIs and prompts of the server: which `zotero://` URI names
//! what, the fixed resource and template lists, and the literature review
//! prompt.

use vstd::prelude::*;

use crate::error::{invalid_with, not_found_with, ok_string, ZoteroMcpError};
use crate::security::{cat2, cat3};
use crate::text::{
    chars_eq, chars_of, contains_char, ends_with_chars, has_prefix, has_suffix, join_spec,
    lemma_join_split, pieces_view, skip_chars, split_chars, split_spec, starts_with_chars,
    str_eq, string_from_chars, take_chars,
};

verus! {

/// Which part of an item a resource URI names.
#[derive(Clone, Copy, Debug, PartialEq, Eq, Structural)]
pub enum ItemResource {
    /// The item itself.
    Item,
    /// All its child items.
    Children,
    /// Its child notes.
    Notes,
    /// Its indexed full text.
    Fulltext,
    /// Its related items.
    Relations,
}

/// What a resource URI names.
#[derive(Debug)]
pub enum ResourceRoute {
    /// `zotero://collections`.
    Collections,
    /// `zotero://tags`.
    Tags,
    /// `zotero://items/recent`.
    RecentItems,
    /// `zotero://items/{key}` and its sub-resources.
    Item { key: String, part: ItemResource },
    /// `zotero://collections/{key}/items`.
    CollectionItems { key: String },
    /// `zotero://collections/{key}`.
    Collection { key: String },
}

/// The mathematical content of a [`ResourceRoute`].
pub enum RouteModel {
    Collections,
    Tags,
    RecentItems,
    Item(Seq<char>, ItemResource),
    CollectionItems(Seq<char>),
    Collection(Seq<char>),
}

/// The content of a route.
pub open spec fn route_view(r: ResourceRoute) -> RouteModel {
    match r {
        ResourceRoute::Collections => RouteModel::Collections,
        ResourceRoute::Tags => RouteModel::Tags,
        ResourceRoute::RecentItems => RouteModel::RecentItems,
        ResourceRoute::Item { key, part } => RouteModel::Item(key@, part),
        ResourceRoute::CollectionItems { key } => RouteModel::CollectionItems(key@),
        ResourceRoute::Collection { key } => RouteModel::Collection(key@),
    }
}

/// The sub-resource a path segment after an item key names.
pub open spec fn item_part_spec(name: Seq<char>) -> Option<ItemResource> {
    if name == "children"@ {
        Some(ItemResource::Children)
    } else if name == "notes"@ {
        Some(ItemResource::Notes)
    } else if name == "fulltext"@ {
        Some(ItemResource::Fulltext)
    } else if name == "relations"@ {
        Some(ItemResource::Relations)
    } else {
        None
    }
}

/// The route of the text after `zotero://items/`: a non-empty key,
/// optionally followed by `/` and a known sub-resource, nothing more.
pub open spec fn item_route_spec(rest: Seq<char>) -> Option<RouteModel> {
    let parts = split_spec(rest, '/');
    if parts[0].len() == 0 || parts.len() > 2 {
        None
    } else if parts.len() == 1 {
        Some(RouteModel::Item(parts[0], ItemResource::Item))
    } else {
        match item_part_spec(parts[1]) {
            Some(p) => Some(RouteModel::Item(parts[0], p)),
            None => None,
        }
    }
}

/// The route of the text after `zotero://collections/`: a key without `/`
/// followed by `/items` names the collection's items; otherwise a
/// non-empty key without `/` names the collection.
pub open spec fn collection_route_spec(rest: Seq<char>) -> Option<RouteModel> {
    let key = rest.take(rest.len() - "/items"@.len());
    if has_suffix(rest, "/items"@) && key.len() > 0 && !key.contains('/') {
        Some(RouteModel::CollectionItems(key))
    } else if rest.len() == 0 || rest.contains('/') {
        None
    } else {
        Some(RouteModel::Collection(rest))
    }
}

/// The route a resource URI names, if any.
pub open spec fn route_spec(uri: Seq<char>) -> Option<RouteModel> {
    if uri == "zotero://collections"@ {
        Some(RouteModel::Collections)
    } else if uri == "zotero://tags"@ {
        Some(RouteModel::Tags)
    } else if uri == "zotero://items/recent"@ {
        Some(RouteModel::RecentItems)
    } else if has_prefix(uri, "zotero://items/"@) {
        item_route_spec(uri.skip("zotero://items/"@.len() as int))
    } else if has_prefix(uri, "zotero://collections/"@) {
        collection_route_spec(uri.skip("zotero://collections/"@.len() as int))
    } else {
        None
    }
}

/// The message given for a URI that names no resource.
pub open spec fn unknown_resource_message(uri: Seq<char>) -> Seq<char> {
    "Unknown resource URI: "@ + uri
}

fn item_part(name: &Vec<char>) -> (r: Option<ItemResource>)
    ensures
        r == item_part_spec(name@),
{
    if chars_eq(name, &chars_of("children")) {
        Some(ItemResource::Children)
    } else if chars_eq(name, &chars_of("notes")) {
        Some(ItemResource::Notes)
    } else if chars_eq(name, &chars_of("fulltext")) {
        Some(ItemResource::Fulltext)
    } else if chars_eq(name, &chars_of("relations")) {
        Some(ItemResource::Relations)
    } else {
        None
    }
}

fn item_route(rest: &Vec<char>) -> (r: Option<ResourceRoute>)
    ensures
        match r {
            Some(rt) => item_route_spec(rest@) == Some(route_view(rt)),
            None => item_route_spec(rest@) is None,
        },
{
    let parts = split_chars(rest, '/');
    proof {
        crate::text::lemma_split_nonempty(rest@, '/');
        assert(pieces_view(parts@)[0] == parts@[0]@);
    }
    if parts[0].len() == 0 || parts.len() > 2 {
        return None;
    }
    let key = string_from_chars(&parts[0]);
    if parts.len() == 1 {
        return Some(ResourceRoute::Item { key, part: ItemResource::Item });
    }
    proof {
        assert(pieces_view(parts@)[1] == parts@[1]@);
    }
    match item_part(&parts[1]) {
        Some(p) => Some(ResourceRoute::Item { key, part: p }),
        None => None,
    }
}

fn collection_route(rest: &Vec<char>) -> (r: Option<ResourceRoute>)
    ensures
        match r {
            Some(rt) => collection_route_spec(rest@) == Some(route_view(rt)),
            None => collection_route_spec(rest@) is None,
        },
{
    let suffix = chars_of("/items");
    if ends_with_chars(rest, &suffix) {
        let key = take_chars(rest, rest.len() - suffix.len());
        if key.len() > 0 && !contains_char(&key, '/') {
            return Some(ResourceRoute::CollectionItems { key: string_from_chars(&key) });
        }
    }
    if rest.len() == 0 || contains_char(rest, '/') {
        return None;
    }
    Some(ResourceRoute::Collection { key: string_from_chars(rest) })
}

/// Reads a resource URI (see [`route_spec`]); a URI naming nothing is an
/// `InvalidParams` error naming it.
pub fn parse_resource_uri(uri: &str) -> (r: Result<ResourceRoute, ZoteroMcpError>)
    ensures
        route_spec(uri@) matches Some(m) ==> (r matches Ok(rt) && route_view(rt) == m),
        route_spec(uri@) is None ==> invalid_with(r, unknown_resource_message(uri@)),
{
    let u = chars_of(uri);
    let routed = if str_eq(uri, "zotero://collections") {
        Some(ResourceRoute::Collections)
    } else if str_eq(uri, "zotero://tags") {
        Some(ResourceRoute::Tags)
    } else if str_eq(uri, "zotero://items/recent") {
        Some(ResourceRoute::RecentItems)
    } else {
        let items_prefix = chars_of("zotero://items/");
        let collections_prefix = chars_of("zotero://collections/");
        if starts_with_chars(&u, &items_prefix) {
            let rest = skip_chars(&u, items_prefix.len());
            item_route(&rest)
        } else if starts_with_chars(&u, &collections_prefix) {
            let rest = skip_chars(&u, collections_prefix.len());
            collection_route(&rest)
        } else {
            None
        }
    };
    match routed {
        Some(rt) => Ok(rt),
        None => Err(ZoteroMcpError::InvalidParams(cat2("Unknown resource URI: ", uri))),
    }
}

/// The URI of a route.
pub open spec fn route_uri(r: RouteModel) -> Seq<char> {
    match r {
        RouteModel::Collections => "zotero://collections"@,
        RouteModel::Tags => "zotero://tags"@,
        RouteModel::RecentItems => "zotero://items/recent"@,
        RouteModel::Item(k, ItemResource::Item) => "zotero://items/"@ + k,
        RouteModel::Item(k, ItemResource::Children) => "zotero://items/"@ + k + "/children"@,
        RouteModel::Item(k, ItemResource::Notes) => "zotero://items/"@ + k + "/notes"@,
        RouteModel::Item(k, ItemResource::Fulltext) => "zotero://items/"@ + k + "/fulltext"@,
        RouteModel::Item(k, ItemResource::Relations) => "zotero://items/"@ + k + "/relations"@,
        RouteModel::CollectionItems(k) => "zotero://collections/"@ + k + "/items"@,
        RouteModel::Collection(k) => "zotero://collections/"@ + k,
    }
}

/// A URI names at most one thing, and writing that thing's URI back gives
/// the URI that was read.
pub proof fn law_routes_write_back_to_their_uri(uri: Seq<char>)
    ensures
        route_spec(uri) matches Some(m) ==> route_uri(m) == uri,
{
    reveal_strlit("zotero://items/");
    reveal_strlit("zotero://collections/");
    reveal_strlit("/items");
    reveal_strlit("/children");
    reveal_strlit("/notes");
    reveal_strlit("/fulltext");
    reveal_strlit("/relations");
    reveal_strlit("children");
    reveal_strlit("notes");
    reveal_strlit("fulltext");
    reveal_strlit("relations");
    if uri == "zotero://collections"@ || uri == "zotero://tags"@ || uri == "zotero://items/recent"@ {
    } else if has_prefix(uri, "zotero://items/"@) {
        let pre = "zotero://items/"@;
        let rest = uri.skip(pre.len() as int);
        assert(pre + rest =~= uri);
        let parts = split_spec(rest, '/');
        lemma_join_split(rest, '/');
        if item_route_spec(rest) is Some {
            if parts.len() == 1 {
                assert(join_spec(parts, '/') == parts[0]);
            } else {
                assert(parts.drop_last() =~= seq![parts[0]]);
                assert(join_spec(parts.drop_last(), '/') == parts[0]);
                assert(join_spec(parts, '/') == parts[0] + seq!['/'] + parts[1]);
                let k = parts[0];
                assert(pre + k + "/children"@ =~= pre + (k + seq!['/'] + "children"@));
                assert(pre + k + "/notes"@ =~= pre + (k + seq!['/'] + "notes"@));
                assert(pre + k + "/fulltext"@ =~= pre + (k + seq!['/'] + "fulltext"@));
                assert(pre + k + "/relations"@ =~= pre + (k + seq!['/'] + "relations"@));
            }
        }
    } else if has_prefix(uri, "zotero://collections/"@) {
        let pre = "zotero://collections/"@;
        let rest = uri.skip(pre.len() as int);
        assert(pre + rest =~= uri);
        let key = rest.take(rest.len() - "/items"@.len());
        if has_suffix(rest, "/items"@) && key.len() > 0 && !key.contains('/') {
            assert(key + "/items"@ =~= rest);
            assert(pre + key + "/items"@ =~= pre + (key + "/items"@));
        }
    }
}

/// A route whose key (if any) is non-empty and holds no `/`; the item
/// itself under the key `recent` is the recent-items resource instead.
pub open spec fn route_key_is_plain(m: RouteModel) -> bool {
    match m {
        RouteModel::Item(k, p) => k.len() > 0 && !k.contains('/') && !(p == ItemResource::Item && k == "recent"@),
        RouteModel::CollectionItems(k) => k.len() > 0 && !k.contains('/'),
        RouteModel::Collection(k) => k.len() > 0 && !k.contains('/'),
        _ => true,
    }
}

/// Every resource and template URI, with a non-empty key without `/` in
/// place of its variable, routes to the resource it names: for example
/// `zotero://items/K/relations` routes to the relations of item `K`.
pub proof fn law_every_route_uri_routes_back(m: RouteModel)
    requires
        route_key_is_plain(m),
    ensures
        route_spec(route_uri(m)) == Some(m),
{
    reveal_strlit("zotero://items/");
    reveal_strlit("zotero://collections/");
    reveal_strlit("zotero://collections");
    reveal_strlit("zotero://tags");
    reveal_strlit("zotero://items/recent");
    reveal_strlit("recent");
    reveal_strlit("/items");
    reveal_strlit("/children");
    reveal_strlit("/notes");
    reveal_strlit("/fulltext");
    reveal_strlit("/relations");
    reveal_strlit("children");
    reveal_strlit("notes");
    reveal_strlit("fulltext");
    reveal_strlit("relations");
    let ip = "zotero://items/"@;
    let cp = "zotero://collections/"@;
    assert(ip.len() == 15 && cp.len() == 21 && ip[9] == 'i' && cp[9] == 'c');
    assert("zotero://collections"@.len() == 20 && "zotero://collections"@[9] == 'c');
    assert("zotero://tags"@.len() == 13);
    assert("zotero://items/recent"@.len() == 21);
    assert("/items"@.len() == 6 && "recent"@.len() == 6);
    assert("children"@.len() == 8 && "notes"@.len() == 5 && "fulltext"@.len() == 8 && "relations"@.len() == 9);
    assert("children"@[0] != "fulltext"@[0]);
    let uri = route_uri(m);
    match m {
        RouteModel::Item(k, p) => {
            let name = match p {
                ItemResource::Item => Seq::<char>::empty(),
                ItemResource::Children => "children"@,
                ItemResource::Notes => "notes"@,
                ItemResource::Fulltext => "fulltext"@,
                ItemResource::Relations => "relations"@,
            };
            let rest = if p == ItemResource::Item { k } else { k + seq!['/'] + name };
            assert(uri =~= ip + rest) by {
                assert("/children"@ =~= seq!['/'] + "children"@);
                assert("/notes"@ =~= seq!['/'] + "notes"@);
                assert("/fulltext"@ =~= seq!['/'] + "fulltext"@);
                assert("/relations"@ =~= seq!['/'] + "relations"@);
            }
            assert(uri[9] == 'i');
            assert(uri.take(15) =~= ip);
            assert(uri.skip(15) =~= rest);
            assert(uri != "zotero://items/recent"@) by {
                if uri == "zotero://items/recent"@ {
                    assert(uri.skip(15) =~= "recent"@);
                }
            }
            if p == ItemResource::Item {
                crate::text::lemma_split_without_separator(k, '/');
            } else {
                crate::text::lemma_split_without_separator(k, '/');
                assert(!name.contains('/')) by {
                    if name.contains('/') {
                        let j = choose|j: int| 0 <= j < name.len() && name[j] == '/';
                    }
                }
                crate::text::lemma_split_append_piece(k, '/', name);
                assert(split_spec(rest, '/') =~= seq![k, name]);
            }
        },
        RouteModel::CollectionItems(k) => {
            let rest = k + "/items"@;
            assert(uri =~= cp + rest);
            assert(uri[9] == 'c');
            assert(uri.take(21) =~= cp);
            assert(uri.skip(21) =~= rest);
            assert(rest.skip(rest.len() - 6) =~= "/items"@);
            assert(rest.take(rest.len() - 6) =~= k);
        },
        RouteModel::Collection(k) => {
            assert(uri =~= cp + k);
            assert(uri[9] == 'c');
            assert(uri.take(21) =~= cp);
            assert(uri.skip(21) =~= k);
            if has_suffix(k, "/items"@) {
                assert(k[k.len() - 6] == "/items"@[0]);
                assert(k.contains('/'));
            }
        },
        _ => {},
    }
}

/// The prompt name of the literature review prompt.
pub open spec fn literature_review_name() -> Seq<char> {
    "zotero_literature_review"@
}

/// The text of the literature review prompt for a collection key.
pub open spec fn literature_review_text(key: Seq<char>) -> Seq<char> {
    "Please perform a structured literature review of all paper items in Zotero collection key '"@ + key + "'."@
}

/// The message given for an unknown prompt.
pub open spec fn unknown_prompt_message(name: Seq<char>) -> Seq<char> {
    "Unknown prompt: "@ + name
}

/// The user message of the prompt `name`: the literature review prompt
/// for `collection_key` (empty when not given); any other name is an
/// `InvalidParams` error naming it.
pub fn get_prompt_text(name: &str, collection_key: Option<&str>) -> (r: Result<String, ZoteroMcpError>)
    ensures
        name@ == literature_review_name() ==> ok_string(r, literature_review_text(match collection_key {
            Some(k) => k@,
            None => Seq::<char>::empty(),
        })),
        name@ != literature_review_name() ==> invalid_with(r, unknown_prompt_message(name@)),
{
    if str_eq(name, "zotero_literature_review") {
        let key = match collection_key {
            Some(k) => k,
            None => "",
        };
        proof {
            reveal_strlit("");
        }
        Ok(cat3(
            "Please perform a structured literature review of all paper items in Zotero collection key '",
            key,
            "'.",
        ))
    } else {
        Err(ZoteroMcpError::InvalidParams(cat2("Unknown prompt: ", name)))
    }
}

/// The description attached to the literature review prompt's response.
pub fn literature_review_description() -> (r: String)
    ensures
        r@ == "Synthesize literature review from Zotero items"@,
{
    "Synthesize literature review from Zotero items".to_owned()
}

/// A listed resource or resource template.
#[derive(Debug)]
pub struct ResourceInfo {
    /// URI, or URI template.
    pub uri: String,
    /// Programmatic name.
    pub name: String,
    /// Display title.
    pub title: String,
    /// Description.
    pub description: String,
    /// MIME type of the contents.
    pub mime_type: String,
}

/// The (uri, name, title, description, mime type) content of resource
/// entries.
pub open spec fn resources_view(v: Seq<ResourceInfo>) -> Seq<(Seq<char>, Seq<char>, Seq<char>, Seq<char>, Seq<char>)> {
    v.map_values(|r: ResourceInfo| (r.uri@, r.name@, r.title@, r.description@, r.mime_type@))
}

fn push_resource(out: &mut Vec<ResourceInfo>, uri: &str, name: &str, title: &str, description: &str, mime_type: &str)
    ensures
        resources_view(final(out)@) == resources_view(old(out)@).push((uri@, name@, title@, description@, mime_type@)),
{
    let r = ResourceInfo {
        uri: uri.to_owned(),
        name: name.to_owned(),
        title: title.to_owned(),
        description: description.to_owned(),
        mime_type: mime_type.to_owned(),
    };
    let ghost before = out@;
    out.push(r);
    assert(resources_view(out@) =~= resources_view(before).push((uri@, name@, title@, description@, mime_type@)));
}

/// The fixed resources, in order.
pub open spec fn resources_spec() -> Seq<(Seq<char>, Seq<char>, Seq<char>, Seq<char>, Seq<char>)> {
    seq![
        ("zotero://collections"@, "collections"@, "Zotero Collections"@, "List of all collections in Zotero library"@, "application/json"@),
        ("zotero://items/recent"@, "recent_items"@, "Recently Modified Zotero Items"@, "Recently modified Zotero items, excluding notes"@, "application/json"@),
        ("zotero://tags"@, "tags"@, "Zotero Tags"@, "List of all tags in Zotero library"@, "application/json"@),
    ]
}

/// Lists the fixed resources: collections, recent items, tags.
pub fn list_resources() -> (r: Vec<ResourceInfo>)
    ensures
        resources_view(r@) == resources_spec(),
{
    let mut out: Vec<ResourceInfo> = Vec::new();
    push_resource(&mut out, "zotero://collections", "collections", "Zotero Collections", "List of all collections in Zotero library", "application/json");
    push_resource(&mut out, "zotero://items/recent", "recent_items", "Recently Modified Zotero Items", "Recently modified Zotero items, excluding notes", "application/json");
    push_resource(&mut out, "zotero://tags", "tags", "Zotero Tags", "List of all tags in Zotero library", "application/json");
    assert(resources_view(out@) =~= resources_spec());
    out
}

/// The resource templates, in order.
pub open spec fn resource_templates_spec() -> Seq<(Seq<char>, Seq<char>, Seq<char>, Seq<char>, Seq<char>)> {
    seq![
        ("zotero://items/{item_key}"@, "item"@, "Zotero Item"@, "Read one Zotero item by key"@, "application/json"@),
        ("zotero://items/{item_key}/fulltext"@, "item_fulltext"@, "Zotero Item Full Text"@, "Read Zotero's indexed full text for an item"@, "text/plain"@),
        ("zotero://items/{item_key}/children"@, "item_children"@, "Zotero Item Children"@, "Read child notes, attachments, and annotations for an item"@, "application/json"@),
        ("zotero://items/{item_key}/notes"@, "item_notes"@, "Zotero Item Notes"@, "Read child notes for an item"@, "application/json"@),
        ("zotero://items/{item_key}/relations"@, "item_relations"@, "Zotero Item Relations"@, "Read related items for an item"@, "application/json"@),
        ("zotero://collections/{collection_key}"@, "collection"@, "Zotero Collection"@, "Read one Zotero collection by key"@, "application/json"@),
        ("zotero://collections/{collection_key}/items"@, "collection_items"@, "Zotero Collection Items"@, "Read items in a collection"@, "application/json"@),
    ]
}

/// Lists the resource templates, each with one URI variable.
pub fn list_resource_templates() -> (r: Vec<ResourceInfo>)
    ensures
        resources_view(r@) == resource_templates_spec(),
{
    let mut out: Vec<ResourceInfo> = Vec::new();
    push_resource(&mut out, "zotero://items/{item_key}", "item", "Zotero Item", "Read one Zotero item by key", "application/json");
    push_resource(&mut out, "zotero://items/{item_key}/fulltext", "item_fulltext", "Zotero Item Full Text", "Read Zotero's indexed full text for an item", "text/plain");
    push_resource(&mut out, "zotero://items/{item_key}/children", "item_children", "Zotero Item Children", "Read child notes, attachments, and annotations for an item", "application/json");
    push_resource(&mut out, "zotero://items/{item_key}/notes", "item_notes", "Zotero Item Notes", "Read child notes for an item", "application/json");
    push_resource(&mut out, "zotero://items/{item_key}/relations", "item_relations", "Zotero Item Relations", "Read related items for an item", "application/json");
    push_resource(&mut out, "zotero://collections/{collection_key}", "collection", "Zotero Collection", "Read one Zotero collection by key", "application/json");
    push_resource(&mut out, "zotero://collections/{collection_key}/items", "collection_items", "Zotero Collection Items", "Read items in a collection", "application/json");
    assert(resources_view(out@) =~= resource_templates_spec());
    out
}

/// A listed prompt with its one argument.
#[derive(Debug)]
pub struct PromptInfo {
    /// Prompt name.
    pub name: String,
    /// Display title.
    pub title: String,
    /// Description.
    pub description: String,
    /// Argument name.
    pub argument_name: String,
    /// Argument title.
    pub argument_title: String,
    /// Argument description.
    pub argument_description: String,
    /// Whether the argument is required.
    pub argument_required: bool,
}

/// Lists the prompts: the literature review prompt over a collection key.
pub fn list_prompts() -> (r: Vec<PromptInfo>)
    ensures
        r@.len() == 1,
        r@[0].name@ == literature_review_name(),
        r@[0].title@ == "Literature Review"@,
        r@[0].description@ == "Generate a literature review prompt for a Zotero collection"@,
        r@[0].argument_name@ == "collection_key"@,
        r@[0].argument_title@ == "Collection Key"@,
        r@[0].argument_description@ == "Key of the Zotero collection"@,
        r@[0].argument_required,
{
    let mut out: Vec<PromptInfo> = Vec::new();
    out.push(PromptInfo {
        name: "zotero_literature_review".to_owned(),
        title: "Literature Review".to_owned(),
        description: "Generate a literature review prompt for a Zotero collection".to_owned(),
        argument_name: "collection_key".to_owned(),
        argument_title: "Collection Key".to_owned(),
        argument_description: "Key of the Zotero collection".to_owned(),
        argument_required: true,
    });
    out
}

/// A collection as the resource reader sees it: its key, and its JSON
/// carried through unchanged.
#[derive(Debug)]
pub struct CollectionEntry {
    /// The collection key.
    pub key: String,
    /// The collection's JSON.
    pub json: String,
}

/// The message given when no collection has the requested key.
pub open spec fn collection_not_found_message(key: Seq<char>) -> Seq<char> {
    "Collection "@ + key
}

/// The first collection with key `key`, or a `NotFound` error naming it.
pub fn find_collection(collections: Vec<CollectionEntry>, key: &str) -> (r: Result<CollectionEntry, ZoteroMcpError>)
    ensures
        (exists|i: int| 0 <= i < collections@.len() && (#[trigger] collections@[i]).key@ == key@) ==> (r matches Ok(c) && c.key@ == key@
            && exists|i: int| 0 <= i < collections@.len() && collections@[i] == c && forall|j: int| 0 <= j < i ==> (#[trigger] collections@[j]).key@ != key@),
        !(exists|i: int| 0 <= i < collections@.len() && (#[trigger] collections@[i]).key@ == key@) ==> not_found_with(r, collection_not_found_message(key@)),
{
    let ghost all = collections@;
    for c in it: collections.into_iter()
        invariant
            it.seq() == all,
            forall|j: int| 0 <= j < it.index() ==> (#[trigger] all[j]).key@ != key@,
    {
        if str_eq(c.key.as_str(), key) {
            proof {
                assert(all[it.index() as int] == c);
            }
            return Ok(c);
        }
    }
    Err(ZoteroMcpError::NotFound(cat2("Collection ", key)))
}

/// Every resource template declares a URI variable (a `{`), so no fixed
/// resource is listed as a template; and no resource or template name
/// holds a space.
pub proof fn law_templates_declare_a_variable()
    ensures
        forall|i: int| 0 <= i < resource_templates_spec().len() ==> (#[trigger] resource_templates_spec()[i]).0.contains('{'),
        forall|i: int| 0 <= i < resource_templates_spec().len() ==> !(#[trigger] resource_templates_spec()[i]).1.contains(' '),
        forall|i: int| 0 <= i < resources_spec().len() ==> !(#[trigger] resources_spec()[i]).1.contains(' '),
{
    reveal_strlit("zotero://items/{item_key}");
    reveal_strlit("zotero://items/{item_key}/fulltext");
    reveal_strlit("zotero://items/{item_key}/children");
    reveal_strlit("zotero://items/{item_key}/notes");
    reveal_strlit("zotero://items/{item_key}/relations");
    reveal_strlit("zotero://collections/{collection_key}");
    reveal_strlit("zotero://collections/{collection_key}/items");
    reveal_strlit("item");
    reveal_strlit("item_fulltext");
    reveal_strlit("item_children");
    reveal_strlit("item_notes");
    reveal_strlit("item_relations");
    reveal_strlit("collection");
    reveal_strlit("collection_items");
    reveal_strlit("collections");
    reveal_strlit("recent_items");
    reveal_strlit("tags");
    let t = resource_templates_spec();
    assert(t[0].0[15] == '{');
    assert(t[1].0[15] == '{');
    assert(t[2].0[15] == '{');
    assert(t[3].0[15] == '{');
    assert(t[4].0[15] == '{');
    assert(t[5].0[21] == '{');
    assert(t[6].0[21] == '{');
}

} // verus!
