use modrinth::params::{
    FileHashes, ProjectIdentifier, ProjectSearchParams, SearchFacet, SearchIndex, SearchParams,
};
use modrinth::base62::Base62;

fn empty_params() -> ProjectSearchParams {
    ProjectSearchParams::new()
}

#[test]
fn absent_fields_are_omitted() {
    // A parameter set with every field absent renders as the empty string.
    assert_eq!(empty_params().to_query_string(), "");
    // Adding one field adds exactly that pair and nothing else.
    let mut p = empty_params();
    p.limit = Some(10);
    assert_eq!(p.to_query_string(), "limit=10");
}

#[test]
fn default_params_have_no_fields() {
    let p = SearchParams::default();
    assert_eq!(p, ProjectSearchParams::new());
    assert_eq!(p.to_query_string(), "");
}

#[test]
fn query_field_renders_as_json_string() {
    let mut p = empty_params();
    p.query = Some("hello world".to_owned());
    assert_eq!(p.to_query_string(), "query=%22hello+world%22");
}

#[test]
fn two_group_facet_filter_renders_as_nested_json_arrays() {
    let mut p = empty_params();
    p.facets = Some(vec![
        vec![SearchFacet::category("a")],
        vec![SearchFacet::version("b")],
    ]);
    // The value is the compact JSON text [["categories:'a'"],["versions:'b'"]],
    // url-encoded.
    assert_eq!(
        p.to_query_string(),
        "facets=%5B%5B%22categories%3A%27a%27%22%5D%2C%5B%22versions%3A%27b%27%22%5D%5D"
    );
}

#[test]
fn facets_render_with_their_field_names() {
    assert_eq!(SearchFacet::category("adventure").render(), "categories:'adventure'");
    assert_eq!(SearchFacet::version("1.19").render(), "versions:'1.19'");
    assert_eq!(SearchFacet::license("mit").render(), "license:'mit'");
    assert_eq!(SearchFacet::project_type("mod").render(), "project_type:'mod'");
    assert_eq!(SearchFacet::custom("loader", "fabric").render(), "loader:'fabric'");
}

#[test]
fn all_fields_join_in_declaration_order() {
    let mut p = empty_params();
    p.query = Some("sodium".to_owned());
    p.index = Some(SearchIndex::Downloads);
    p.offset = Some(20);
    p.limit = Some(10);
    p.filters = Some(vec![vec!["categories=misc".to_owned()]]);
    assert_eq!(
        p.to_query_string(),
        "query=%22sodium%22&index=%22downloads%22&offset=20&limit=10&filters=%5B%5B%22categories%3Dmisc%22%5D%5D"
    );
}

#[test]
fn rendering_is_stable_within_a_run() {
    let mut p = empty_params();
    p.query = Some("q".to_owned());
    p.limit = Some(5);
    let first = p.to_query_string();
    let second = p.to_query_string();
    assert_eq!(first, second);
}

#[test]
fn json_strings_escape_quotes_and_controls() {
    let mut p = empty_params();
    p.query = Some("say \"hi\"\n".to_owned());
    // '"' becomes \" and the newline becomes \n inside the JSON string;
    // '\\' and '"' are then percent-encoded.
    assert_eq!(p.to_query_string(), "query=%22say+%5C%22hi%5C%22%5Cn%22");
}

#[test]
fn search_index_wire_names() {
    assert_eq!(SearchIndex::Relevance.as_str(), "relevance");
    assert_eq!(SearchIndex::Downloads.as_str(), "downloads");
    assert_eq!(SearchIndex::Follows.as_str(), "follows");
    assert_eq!(SearchIndex::Newest.as_str(), "newest");
    assert_eq!(SearchIndex::Updated.as_str(), "updated");
}

#[test]
fn identifiers_render_ids_and_slugs() {
    assert_eq!(ProjectIdentifier::id(Base62::new(12345)).render(), "3D7");
    assert_eq!(ProjectIdentifier::slug("sodium").render(), "sodium");
}

#[test]
fn file_hash_constructors_fill_one_side() {
    let h = FileHashes::sha512("abc");
    assert_eq!(h.sha512.as_deref(), Some("abc"));
    assert_eq!(h.sha1, None);
    let h = FileHashes::sha1("def");
    assert_eq!(h.sha512, None);
    assert_eq!(h.sha1.as_deref(), Some("def"));
}
