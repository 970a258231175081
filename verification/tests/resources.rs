use zotero_mcp_rs::error::ZoteroMcpError;
use zotero_mcp_rs::resources::{
    find_collection, get_prompt_text, list_prompts, list_resource_templates, list_resources,
    parse_resource_uri, CollectionEntry, ItemResource, ResourceRoute,
};

#[test]
fn list_resources_returns_static_zotero_uris() {
    let res = list_resources();

    let uris: Vec<&str> = res.iter().map(|resource| resource.uri.as_str()).collect();
    assert_eq!(uris, ["zotero://collections", "zotero://items/recent", "zotero://tags"]);
}

#[test]
fn resource_names_are_identifiers_with_display_titles() {
    let res = list_resources();

    let collections = res.first().expect("resource");
    assert_eq!(collections.name, "collections");
    assert_eq!(collections.title, "Zotero Collections");
    for resource in &res {
        assert!(!resource.name.contains(' '), "resource name must be a programmatic identifier");
    }
}

#[test]
fn lists_item_and_collection_resource_templates() {
    let res = list_resource_templates();
    let templates: Vec<&str> = res.iter().map(|template| template.uri.as_str()).collect();

    assert!(templates.contains(&"zotero://items/{item_key}"));
    assert!(templates.contains(&"zotero://items/{item_key}/fulltext"));
    assert!(templates.contains(&"zotero://collections/{collection_key}"));
    assert!(templates.contains(&"zotero://collections/{collection_key}/items"));
}

#[test]
fn resource_templates_all_declare_a_uri_variable() {
    let res = list_resource_templates();

    for template in &res {
        assert!(template.uri.contains('{'), "{} is static and belongs in resources/list", template.uri);
        assert!(!template.name.contains(' '));
        assert!(!template.title.is_empty());
    }
}

#[test]
fn list_prompts_returns_literature_review_prompt() {
    let list = list_prompts();

    assert_eq!(list.len(), 1);
    assert_eq!(list.first().expect("prompt").name, "zotero_literature_review");
}

#[test]
fn get_prompt_renders_literature_review_with_collection_key() {
    let text = get_prompt_text("zotero_literature_review", Some("COL123")).expect("get prompt");

    assert!(text.contains("COL123"));
}

#[test]
fn get_prompt_returns_error_for_unknown_prompt() {
    let err = get_prompt_text("unknown_prompt", None).expect_err("unknown prompt should fail");

    assert!(matches!(err, ZoteroMcpError::InvalidParams(_)));
}

#[test]
fn prompt_text_without_key_quotes_an_empty_key() {
    assert_eq!(
        get_prompt_text("zotero_literature_review", None).unwrap(),
        "Please perform a structured literature review of all paper items in Zotero collection key ''."
    );
    assert_eq!(
        get_prompt_text("other", None),
        Err(ZoteroMcpError::InvalidParams("Unknown prompt: other".to_owned()))
    );
}

#[test]
fn resource_uris_route_to_their_readers() {
    assert!(matches!(parse_resource_uri("zotero://collections"), Ok(ResourceRoute::Collections)));
    assert!(matches!(parse_resource_uri("zotero://tags"), Ok(ResourceRoute::Tags)));
    assert!(matches!(parse_resource_uri("zotero://items/recent"), Ok(ResourceRoute::RecentItems)));
    assert!(matches!(
        parse_resource_uri("zotero://items/ABC"),
        Ok(ResourceRoute::Item { key, part: ItemResource::Item }) if key == "ABC"
    ));
    assert!(matches!(
        parse_resource_uri("zotero://items/ABC/notes"),
        Ok(ResourceRoute::Item { key, part: ItemResource::Notes }) if key == "ABC"
    ));
    assert!(matches!(
        parse_resource_uri("zotero://collections/COL/items"),
        Ok(ResourceRoute::CollectionItems { key }) if key == "COL"
    ));
    assert!(matches!(
        parse_resource_uri("zotero://collections/COL"),
        Ok(ResourceRoute::Collection { key }) if key == "COL"
    ));
}

#[test]
fn unknown_resource_uris_are_invalid_params() {
    assert_eq!(
        parse_resource_uri("zotero://unknown").err(),
        Some(ZoteroMcpError::InvalidParams("Unknown resource URI: zotero://unknown".to_owned()))
    );
    assert!(parse_resource_uri("zotero://items/ABC/unknown").is_err());
    assert!(parse_resource_uri("zotero://items/ABC/notes/extra").is_err());
    assert!(parse_resource_uri("zotero://items/").is_err());
    assert!(parse_resource_uri("zotero://collections/a/b").is_err());
}

#[test]
fn collection_lookup_finds_by_key() {
    let collections = vec![
        CollectionEntry { key: "A".to_owned(), json: "{\"key\":\"A\"}".to_owned() },
        CollectionEntry { key: "B".to_owned(), json: "{\"key\":\"B\"}".to_owned() },
    ];
    assert_eq!(find_collection(collections, "B").unwrap().json, "{\"key\":\"B\"}");
    let none = vec![CollectionEntry { key: "A".to_owned(), json: String::new() }];
    assert_eq!(find_collection(none, "Z").err(), Some(ZoteroMcpError::NotFound("Collection Z".to_owned())));
}

#[test]
fn literature_review_response_is_described() {
    assert_eq!(
        zotero_mcp_rs::resources::literature_review_description(),
        "Synthesize literature review from Zotero items"
    );
}
