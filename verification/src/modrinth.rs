//! The mod-marketplace client's request and response shapes, and the
//! exact URLs its requests are made of. The HTTP traffic itself, and the
//! process-wide rate limiter around it, live with the surrounding
//! application; what is verified here is that every request URL is built
//! from its parameters exactly as the API prescribes.

use vstd::prelude::*;
use vstd::string::StringExecFns;
use crate::strutil::dec_str;

verus! {

/// A project listed on the marketplace.
pub struct ModrinthProject {
    pub slug: String,
    pub title: String,
    pub description: String,
    pub project_type: String,
    pub downloads: u64,
    pub icon_url: Option<String>,
    pub project_id: String,
    pub author: String,
    pub categories: Vec<String>,
}

/// One page of search results.
pub struct ModrinthSearchResult {
    pub hits: Vec<ModrinthProject>,
    pub offset: u32,
    pub limit: u32,
    pub total_hits: u32,
}

/// One published version of a project.
pub struct ModrinthVersion {
    pub id: String,
    pub project_id: String,
    pub name: String,
    pub version_number: String,
    pub game_versions: Vec<String>,
    pub loaders: Vec<String>,
    pub files: Vec<ModrinthFile>,
    pub dependencies: Vec<ModrinthDependency>,
}

/// One downloadable file of a version.
pub struct ModrinthFile {
    pub url: String,
    pub filename: String,
    pub primary: bool,
    pub size: u64,
    pub hashes: ModrinthHashes,
}

/// The digests the marketplace publishes for a file.
pub struct ModrinthHashes {
    pub sha1: Option<String>,
    pub sha512: Option<String>,
}

/// A declared dependency of a version.
pub struct ModrinthDependency {
    pub version_id: Option<String>,
    pub project_id: Option<String>,
    pub dependency_type: String,
}

/// What the percent-encoding of a query fragment is, named after the
/// outside implementation that computes it.
pub uninterp spec fn url_encoded(s: Seq<char>) -> Seq<char>;

/// Relies on `urlencoding::encode`: percent-encodes every byte except
/// alphanumerics and `-`, `_`, `.`, `~`; the result depends on the input
/// characters alone, and an empty input stays empty.
#[verifier::external_body]
fn url_encode(s: &str) -> (r: String)
    ensures
        r@ == url_encoded(s@),
        s@.len() == 0 ==> r@.len() == 0,
{
    urlencoding::encode(s).into_owned()
}

/// The search facet list: always the project type, optionally the game
/// version and the loader category, each facet a one-element JSON array.
pub open spec fn facets_spec(
    pt: Seq<char>,
    gv: Option<Seq<char>>,
    ld: Option<Seq<char>>,
) -> Seq<char> {
    "[[\"project_type:"@ + pt + "\"]"@ + (match gv {
        Some(v) => ",[\"versions:"@ + v + "\"]"@,
        None => Seq::<char>::empty(),
    }) + (match ld {
        Some(l) => ",[\"categories:"@ + l + "\"]"@,
        None => Seq::<char>::empty(),
    }) + "]"@
}

/// The search request URL: query and facet list percent-encoded, paging
/// rendered in decimal.
pub open spec fn search_url_spec(
    q: Seq<char>,
    pt: Seq<char>,
    gv: Option<Seq<char>>,
    ld: Option<Seq<char>>,
    limit: nat,
    offset: nat,
) -> Seq<char> {
    "https://api.modrinth.com/v2/search?query="@ + url_encoded(q) + "&facets="@ + url_encoded(
        facets_spec(pt, gv, ld),
    ) + "&limit="@ + dec_str(limit) + "&offset="@ + dec_str(offset)
}

/// Build the search request URL for a query over one project type,
/// optionally narrowed to a game version and a loader.
pub fn search_url(
    query: &str,
    project_type: &str,
    game_version: Option<&str>,
    loader: Option<&str>,
    limit: u32,
    offset: u32,
) -> (r: String)
    ensures
        r@ == search_url_spec(
            query@,
            project_type@,
            match game_version {
                Some(v) => Some(v@),
                None => None,
            },
            match loader {
                Some(l) => Some(l@),
                None => None,
            },
            limit as nat,
            offset as nat,
        ),
{
    let mut facets = String::new();
    facets.append("[[\"project_type:");
    facets.append(project_type);
    facets.append("\"]");
    match game_version {
        Some(v) => {
            facets.append(",[\"versions:");
            facets.append(v);
            facets.append("\"]");
        },
        None => {},
    }
    match loader {
        Some(l) => {
            facets.append(",[\"categories:");
            facets.append(l);
            facets.append("\"]");
        },
        None => {},
    }
    facets.append("]");
    proof {
        assert(facets@ =~= facets_spec(
            project_type@,
            match game_version {
                Some(v) => Some(v@),
                None => None,
            },
            match loader {
                Some(l) => Some(l@),
                None => None,
            },
        ));
    }
    let eq = url_encode(query);
    let ef = url_encode(facets.as_str());
    let el = crate::strutil::u32_to_string(limit);
    let eo = crate::strutil::u32_to_string(offset);
    let mut out = String::new();
    out.append("https://api.modrinth.com/v2/search?query=");
    out.append(eq.as_str());
    out.append("&facets=");
    out.append(ef.as_str());
    out.append("&limit=");
    out.append(el.as_str());
    out.append("&offset=");
    out.append(eo.as_str());
    proof {
        assert(out@ =~= search_url_spec(
            query@,
            project_type@,
            match game_version {
                Some(v) => Some(v@),
                None => None,
            },
            match loader {
                Some(l) => Some(l@),
                None => None,
            },
            limit as nat,
            offset as nat,
        ));
    }
    out
}

/// The version-listing URL of a project, its optional filters rendered as
/// query parameters joined by `&`.
pub open spec fn project_versions_url_spec(
    id: Seq<char>,
    gv: Option<Seq<char>>,
    ld: Option<Seq<char>>,
) -> Seq<char> {
    "https://api.modrinth.com/v2/project/"@ + id + "/version"@ + (match (gv, ld) {
        (None, None) => Seq::<char>::empty(),
        (Some(v), None) => "?game_versions=[\""@ + v + "\"]"@,
        (None, Some(l)) => "?loaders=[\""@ + l + "\"]"@,
        (Some(v), Some(l)) => "?game_versions=[\""@ + v + "\"]&loaders=[\""@ + l + "\"]"@,
    })
}

/// Build the version-listing URL of a project.
pub fn project_versions_url(project_id: &str, game_version: Option<&str>, loader: Option<&str>) -> (
    r: String)
    ensures
        r@ == project_versions_url_spec(
            project_id@,
            match game_version {
                Some(v) => Some(v@),
                None => None,
            },
            match loader {
                Some(l) => Some(l@),
                None => None,
            },
        ),
{
    let mut out = String::new();
    out.append("https://api.modrinth.com/v2/project/");
    out.append(project_id);
    out.append("/version");
    match (game_version, loader) {
        (None, None) => {},
        (Some(v), None) => {
            out.append("?game_versions=[\"");
            out.append(v);
            out.append("\"]");
        },
        (None, Some(l)) => {
            out.append("?loaders=[\"");
            out.append(l);
            out.append("\"]");
        },
        (Some(v), Some(l)) => {
            out.append("?game_versions=[\"");
            out.append(v);
            out.append("\"]&loaders=[\"");
            out.append(l);
            out.append("\"]");
        },
    }
    proof {
        assert(out@ =~= project_versions_url_spec(
            project_id@,
            match game_version {
                Some(v) => Some(v@),
                None => None,
            },
            match loader {
                Some(l) => Some(l@),
                None => None,
            },
        ));
    }
    out
}

/// Build the detail URL of a project.
pub fn project_url(project_id: &str) -> (r: String)
    ensures
        r@ == "https://api.modrinth.com/v2/project/"@ + project_id@,
{
    let mut out = String::new();
    out.append("https://api.modrinth.com/v2/project/");
    out.append(project_id);
    proof {
        assert(out@ =~= "https://api.modrinth.com/v2/project/"@ + project_id@);
    }
    out
}

} // verus!
