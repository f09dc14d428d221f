//! The remote catalog client's verified half: the registry's record shapes,
//! the exact request URLs, and the status checks with their error messages.
//! The HTTP round trips themselves stay outside the library.

use vstd::prelude::*;
use crate::strutil::{dec_seq, str_concat, u64_to_decimal};

verus! {

/// A project summary returned by the registry's search.
#[derive(Debug, Clone)]
pub struct ModrinthProject {
    pub project_id: String,
    pub slug: String,
    pub title: String,
    pub description: String,
    pub icon_url: Option<String>,
    pub author: String,
    pub downloads: u64,
    pub follows: u64,
}

/// One downloadable file of a published version.
#[derive(Debug, Clone)]
pub struct ModrinthFile {
    pub url: String,
    pub filename: String,
    pub primary: bool,
}

/// A published version of a project, with its candidate files.
#[derive(Debug, Clone)]
pub struct ModrinthVersion {
    pub id: String,
    pub project_id: String,
    pub author_id: String,
    pub featured: bool,
    pub name: String,
    pub version_number: String,
    pub game_versions: Vec<String>,
    pub loaders: Vec<String>,
    pub files: Vec<ModrinthFile>,
}

/// The registry's base URL.
pub open spec fn api_base() -> Seq<char> {
    "https://api.modrinth.com/v2"@
}

/// The search request URL: the query verbatim, filtered to mod projects.
pub open spec fn spec_search_url(query: Seq<char>) -> Seq<char> {
    api_base() + "/search?query="@ + query + "&facets=[[\"project_type:mod\"]]"@
}

/// Builds the search request URL for `query`.
pub fn search_url(query: &str) -> (r: String)
    ensures
        r@ == spec_search_url(query@),
{
    let base = str_concat("https://api.modrinth.com/v2", "/search?query=");
    let with_query = str_concat(base.as_str(), query);
    let r = str_concat(with_query.as_str(), "&facets=[[\"project_type:mod\"]]");
    proof {
        assert(r@ =~= spec_search_url(query@));
    }
    r
}

/// The loader filter parameter, a serialized single-element list.
pub open spec fn spec_loader_param(l: Seq<char>) -> Seq<char> {
    "loaders=[\""@ + l + "\"]"@
}

/// The game-version filter parameter, a serialized single-element list.
pub open spec fn spec_game_version_param(v: Seq<char>) -> Seq<char> {
    "game_versions=[\""@ + v + "\"]"@
}

/// The query string of a version listing: the loader filter first, then the
/// game-version filter, joined with `&`; empty when both are absent.
pub open spec fn spec_version_params(
    loader: Option<Seq<char>>,
    game_version: Option<Seq<char>>,
) -> Seq<char> {
    match (loader, game_version) {
        (Option::None, Option::None) => Seq::empty(),
        (Option::Some(l), Option::None) => spec_loader_param(l),
        (Option::None, Option::Some(v)) => spec_game_version_param(v),
        (Option::Some(l), Option::Some(v)) => spec_loader_param(l) + "&"@
            + spec_game_version_param(v),
    }
}

/// The version listing request URL for a project, with the optional filters
/// appended after `?` when any is present.
pub open spec fn spec_versions_url(
    project_id: Seq<char>,
    loader: Option<Seq<char>>,
    game_version: Option<Seq<char>>,
) -> Seq<char> {
    let base = api_base() + "/project/"@ + project_id + "/version"@;
    let params = spec_version_params(loader, game_version);
    if params.len() == 0 {
        base
    } else {
        base + "?"@ + params
    }
}

/// Builds the loader filter parameter.
fn loader_param(l: &str) -> (r: String)
    ensures
        r@ == spec_loader_param(l@),
{
    let head = str_concat("loaders=[\"", l);
    let r = str_concat(head.as_str(), "\"]");
    proof {
        assert(r@ =~= spec_loader_param(l@));
    }
    r
}

/// Builds the game-version filter parameter.
fn game_version_param(v: &str) -> (r: String)
    ensures
        r@ == spec_game_version_param(v@),
{
    let head = str_concat("game_versions=[\"", v);
    let r = str_concat(head.as_str(), "\"]");
    proof {
        assert(r@ =~= spec_game_version_param(v@));
    }
    r
}

/// Builds the version listing request URL for `project_id` under the given
/// optional loader and game-version filters.
pub fn versions_url(project_id: &str, loader: Option<&str>, game_version: Option<&str>) -> (r:
    String)
    ensures
        r@ == spec_versions_url(
            project_id@,
            match loader {
                Some(l) => Some(l@),
                None => None,
            },
            match game_version {
                Some(v) => Some(v@),
                None => None,
            },
        ),
{
    let head = str_concat("https://api.modrinth.com/v2", "/project/");
    let with_id = str_concat(head.as_str(), project_id);
    let base = str_concat(with_id.as_str(), "/version");
    let r = match (loader, game_version) {
        (Option::None, Option::None) => base,
        (Option::Some(l), Option::None) => {
            let q = str_concat(base.as_str(), "?");
            let p = loader_param(l);
            str_concat(q.as_str(), p.as_str())
        },
        (Option::None, Option::Some(v)) => {
            let q = str_concat(base.as_str(), "?");
            let p = game_version_param(v);
            str_concat(q.as_str(), p.as_str())
        },
        (Option::Some(l), Option::Some(v)) => {
            let q = str_concat(base.as_str(), "?");
            let pl = loader_param(l);
            let q2 = str_concat(q.as_str(), pl.as_str());
            let q3 = str_concat(q2.as_str(), "&");
            let pv = game_version_param(v);
            str_concat(q3.as_str(), pv.as_str())
        },
    };
    proof {
        let lv: Option<Seq<char>> = match loader {
            Some(l) => Some(l@),
            None => None,
        };
        let gv: Option<Seq<char>> = match game_version {
            Some(v) => Some(v@),
            None => None,
        };
        if lv is None && gv is None {
            assert(spec_version_params(lv, gv).len() == 0);
        } else {
            reveal_strlit("loaders=[\"");
            reveal_strlit("game_versions=[\"");
            assert(spec_version_params(lv, gv).len() != 0);
        }
        assert(r@ =~= spec_versions_url(project_id@, lv, gv));
    }
    r
}

/// Decides whether an HTTP status is a success status.
pub fn is_success_status(status: u16) -> (r: bool)
    ensures
        r == (200 <= status < 300),
{
    200 <= status && status < 300
}

/// The error message a failed registry request surfaces.
pub open spec fn spec_api_error_message(status: nat) -> Seq<char> {
    "Modrinth API error: "@ + dec_seq(status)
}

/// The error message a failed file download surfaces.
pub open spec fn spec_download_error_message(status: nat) -> Seq<char> {
    "Download failed: "@ + dec_seq(status)
}

/// Checks a registry response status: accepted exactly on success statuses,
/// rejected with the documented message naming the status otherwise.
pub fn check_api_status(status: u16) -> (r: Result<(), String>)
    ensures
        r is Ok <==> 200 <= status < 300,
        r matches Err(e) ==> e@ == spec_api_error_message(status as nat),
{
    if is_success_status(status) {
        Ok(())
    } else {
        let rendered = u64_to_decimal(status as u64);
        Err(str_concat("Modrinth API error: ", rendered.as_str()))
    }
}

/// Checks a download response status: accepted exactly on success statuses,
/// rejected with the documented message naming the status otherwise.
pub fn check_download_status(status: u16) -> (r: Result<(), String>)
    ensures
        r is Ok <==> 200 <= status < 300,
        r matches Err(e) ==> e@ == spec_download_error_message(status as nat),
{
    if is_success_status(status) {
        Ok(())
    } else {
        let rendered = u64_to_decimal(status as u64);
        Err(str_concat("Download failed: ", rendered.as_str()))
    }
}

} // verus!
