use launcher_core::modrinth::project_url;
use launcher_core::modrinth::project_versions_url;
use launcher_core::modrinth::search_url;

#[test]
fn search_url_encodes_query_and_facets() {
    assert_eq!(
        search_url("a b", "mod", None, None, 20, 0),
        "https://api.modrinth.com/v2/search?query=a%20b&facets=%5B%5B%22project_type%3Amod%22%5D%5D&limit=20&offset=0"
    );
}

#[test]
fn search_url_appends_optional_facets() {
    let url = search_url("sodium", "mod", Some("1.20.4"), Some("fabric"), 10, 30);
    // the facet list before encoding:
    // [["project_type:mod"],["versions:1.20.4"],["categories:fabric"]]
    assert_eq!(
        url,
        "https://api.modrinth.com/v2/search?query=sodium&facets=%5B%5B%22project_type%3Amod%22%5D%2C%5B%22versions%3A1.20.4%22%5D%2C%5B%22categories%3Afabric%22%5D%5D&limit=10&offset=30"
    );
}

#[test]
fn version_listing_urls_carry_their_filters() {
    assert_eq!(
        project_versions_url("sodium", None, None),
        "https://api.modrinth.com/v2/project/sodium/version"
    );
    assert_eq!(
        project_versions_url("sodium", Some("1.20.4"), None),
        "https://api.modrinth.com/v2/project/sodium/version?game_versions=[\"1.20.4\"]"
    );
    assert_eq!(
        project_versions_url("sodium", None, Some("fabric")),
        "https://api.modrinth.com/v2/project/sodium/version?loaders=[\"fabric\"]"
    );
    assert_eq!(
        project_versions_url("sodium", Some("1.20.4"), Some("fabric")),
        "https://api.modrinth.com/v2/project/sodium/version?game_versions=[\"1.20.4\"]&loaders=[\"fabric\"]"
    );
}

#[test]
fn project_urls_embed_the_id() {
    assert_eq!(project_url("sodium"), "https://api.modrinth.com/v2/project/sodium");
}
