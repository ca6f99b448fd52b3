use synrinth::search::FacetFilter;
use synrinth::search::FacetOp;
use synrinth::search::FacetType;
use synrinth::search::QueryParams;
use synrinth::search::build_facets;
use synrinth::search::build_search_url;
use synrinth::search::is_blank;
use synrinth::search::project_url;
use synrinth::search::project_version_url;
use synrinth::search::project_versions_url;

fn downloads_filter(value: &str) -> FacetFilter {
    FacetFilter { facet: FacetType::Downloads, op: FacetOp::Eq, value: String::from(value) }
}

#[test]
fn facet_symbols_and_names() {
    assert_eq!(FacetOp::Eq.symbol(), ":");
    assert_eq!(FacetOp::Neq.symbol(), "!=");
    assert_eq!(FacetOp::Gte.symbol(), ">=");
    assert_eq!(FacetOp::Gt.symbol(), ">");
    assert_eq!(FacetOp::Lte.symbol(), "<=");
    assert_eq!(FacetOp::Lt.symbol(), "<");
    assert_eq!(FacetType::ProjectType.as_str(), "project_type");
    assert_eq!(FacetType::ClientSide.as_str(), "client_side");
    assert_eq!(FacetType::CreatedTimestamp.as_str(), "created_timestamp");
}

#[test]
fn facet_filter_renders_to_query_form() {
    assert_eq!(downloads_filter("1000").to_query_string(), "downloads:1000");
    let f = FacetFilter {
        facet: FacetType::Versions,
        op: FacetOp::Gte,
        value: String::from("1.20"),
    };
    assert_eq!(f.to_query_string(), "versions>=1.20");
}

#[test]
fn build_facets_encodes_nested_groups() {
    let groups = vec![
        vec![downloads_filter("1000")],
        vec![
            FacetFilter {
                facet: FacetType::Categories,
                op: FacetOp::Eq,
                value: String::from("tech"),
            },
            FacetFilter {
                facet: FacetType::Categories,
                op: FacetOp::Eq,
                value: String::from("magic"),
            },
        ],
    ];
    let s = build_facets(&groups).unwrap().unwrap();
    assert_eq!(s, "[[\"downloads:1000\"],[\"categories:tech\",\"categories:magic\"]]");
}

#[test]
fn build_facets_drops_empty_groups() {
    assert_eq!(build_facets(&vec![]).unwrap(), None);
    assert_eq!(build_facets(&vec![vec![], vec![]]).unwrap(), None);
    let groups = vec![vec![], vec![downloads_filter("5")]];
    assert_eq!(build_facets(&groups).unwrap().unwrap(), "[[\"downloads:5\"]]");
}

#[test]
fn blankness_of_queries() {
    assert!(is_blank(""));
    assert!(is_blank("   \t\n"));
    assert!(!is_blank(" map "));
}

#[test]
fn search_url_without_parameters_is_bare() {
    let params = QueryParams { query: None, facets: None };
    assert_eq!(build_search_url(&params).unwrap(), "https://api.modrinth.com/v2/search");
    let blank = QueryParams { query: Some(String::from("  ")), facets: Some(vec![]) };
    assert_eq!(build_search_url(&blank).unwrap(), "https://api.modrinth.com/v2/search");
}

#[test]
fn search_url_with_query_and_facets() {
    let params = QueryParams {
        query: Some(String::from("map")),
        facets: Some(vec![vec![downloads_filter("1000")]]),
    };
    assert_eq!(
        build_search_url(&params).unwrap(),
        "https://api.modrinth.com/v2/search?query=map&facets=[[\"downloads:1000\"]]"
    );
    let only_query = QueryParams { query: Some(String::from("map")), facets: None };
    assert_eq!(
        build_search_url(&only_query).unwrap(),
        "https://api.modrinth.com/v2/search?query=map"
    );
    let only_facets = QueryParams {
        query: None,
        facets: Some(vec![vec![downloads_filter("1000")]]),
    };
    assert_eq!(
        build_search_url(&only_facets).unwrap(),
        "https://api.modrinth.com/v2/search?facets=[[\"downloads:1000\"]]"
    );
}

#[test]
fn project_endpoint_urls() {
    assert_eq!(project_url("sodium"), "https://api.modrinth.com/v2/project/sodium");
    assert_eq!(
        project_versions_url("sodium"),
        "https://api.modrinth.com/v2/project/sodium/version"
    );
    assert_eq!(
        project_version_url("sodium", "mc1.20.1-0.5.3"),
        "https://api.modrinth.com/v2/project/sodium/version/mc1.20.1-0.5.3"
    );
}
