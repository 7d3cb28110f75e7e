//! The dramacool provider: result types and the verified parts of its
//! flows — the URLs it requests, the server selection with an explicit
//! miss, and the assembly of search results and media info.

use vstd::prelude::*;

use crate::error::ExtractorError;
use crate::extractors::MixDropSource;
use crate::extractors::MixDropSubtitle;
use crate::models::types::ISubtitle;
use crate::models::types::IVideo;
use crate::models::types::StreamingServers;
use crate::strutil;

verus! {

use vstd::string::StringExecFns;

/// The dramacool provider.
#[derive(Debug)]
pub struct DramaCool;

/// Which extractor produced the sources.
#[derive(Debug)]
pub enum DramaCoolSourceType {
    AsianLoad(Vec<IVideo>),
    MixDrop(Vec<MixDropSource>),
    StreamTape(Vec<IVideo>),
    StreamSB(Vec<IVideo>),
}

/// Which extractor produced the subtitles.
#[derive(Debug)]
pub enum DramaCoolSubtitles {
    AsianLoad(Vec<ISubtitle>),
    MixDrop(Vec<MixDropSubtitle>),
}

/// A resolved episode: sources, subtitles and the referer header value.
#[derive(Debug)]
pub struct DramaCoolSources {
    pub headers: Option<String>,
    pub subtitles: Option<DramaCoolSubtitles>,
    pub sources: DramaCoolSourceType,
}

/// One page of search results.
#[derive(Debug)]
pub struct DramaCoolSearchResults {
    pub current_page: usize,
    pub has_next_page: bool,
    pub total_pages: usize,
    pub total_results: usize,
    pub results: Vec<DramaCoolResult>,
}

/// One scraped result entry.
#[derive(Debug)]
pub struct DramaCoolResult {
    pub id: String,
    pub title: String,
    pub url: String,
    pub image: String,
    pub status: String,
    pub release_date: String,
    pub other_names: Vec<String>,
    pub description: String,
    pub genres: Vec<String>,
    pub country: Vec<String>,
}

/// One episode entry.
#[derive(Debug, Clone)]
pub struct DramaCoolEpisode {
    pub id: String,
    pub title: String,
    pub sub_type: String,
    pub release_date: String,
    pub url: String,
}

/// Full info with the episode list.
#[derive(Debug)]
pub struct DramaCoolInfo {
    pub id: String,
    pub title: String,
    pub url: String,
    pub image: String,
    pub status: String,
    pub release_date: String,
    pub other_names: Vec<String>,
    pub description: String,
    pub genres: Vec<String>,
    pub country: Vec<String>,
    pub total_episodes: usize,
    pub episodes: Vec<DramaCoolEpisode>,
}

/// The servers an episode is available on.
#[derive(Debug)]
pub struct DramaCoolServers {
    pub servers: Vec<DramaCoolServer>,
}

/// One server entry.
#[derive(Debug)]
pub struct DramaCoolServer {
    pub name: String,
    pub url: String,
}

/// The provider's base URL.
pub fn dramacool_base_url() -> (r: &'static str)
    ensures
        r@ == "https://dramacool.com.pa"@,
{
    "https://dramacool.com.pa"
}

impl DramaCool {
    /// The search URL for a query and a page: spaces in the query become
    /// dashes.
    pub fn search_url(&self, query: &str, page: usize) -> (r: String)
        ensures
            r@ == "https://dramacool.com.pa"@ + "/search?keyword="@ + query@.map_values(
                |c: char|
                    if c == ' ' {
                        '-'
                    } else {
                        c
                    },
            ) + "&page="@ + strutil::dec_digits(page as int),
    {
        let parsed = strutil::replace_char(query, ' ', '-');
        let mut r = dramacool_base_url().to_owned();
        r.append("/search?keyword=");
        r.append(parsed.as_str());
        r.append("&page=");
        let page_str = strutil::usize_to_string(page);
        r.append(page_str.as_str());
        r
    }

    /// The info page URL of a media id.
    pub fn info_url(&self, media_id: &str) -> (r: String)
        ensures
            r@ == "https://dramacool.com.pa"@ + "/"@ + media_id@,
    {
        let mut r = dramacool_base_url().to_owned();
        r.append("/");
        r.append(media_id);
        r
    }

    /// The servers listing URL of an episode id.
    pub fn servers_url(&self, episode_id: &str) -> (r: String)
        ensures
            r@ == "https://dramacool.com.pa"@ + episode_id@ + ".html"@,
    {
        let mut r = dramacool_base_url().to_owned();
        r.append(episode_id);
        r.append(".html");
        r
    }

    /// The position of the requested server in the list, compared by its
    /// lower-case name; a server the list does not name is an explicit
    /// miss, never a panic.
    pub fn find_server_index(&self, servers: &Vec<DramaCoolServer>, server: StreamingServers)
        -> (r: Result<usize, ExtractorError>)
        ensures
            r matches Ok(i) ==> i < servers@.len() && servers@[i as int].name@
                == server.spec_lowercase_name() && forall|k: int|
                0 <= k < i ==> (#[trigger] servers@[k].name)@ != server.spec_lowercase_name(),
            r is Err ==> r == Err::<usize, ExtractorError>(ExtractorError::NotFound) && forall|
                k: int,
            |
                0 <= k < servers@.len() ==> (#[trigger] servers@[k].name)@
                    != server.spec_lowercase_name(),
    {
        let name = server.lowercase_name();
        let n = servers.len();
        let mut i: usize = 0;
        while i < n
            invariant
                n == servers@.len(),
                i <= n,
                name@ == server.spec_lowercase_name(),
                forall|k: int|
                    0 <= k < i ==> (#[trigger] servers@[k].name)@ != server.spec_lowercase_name(),
            decreases n - i,
        {
            if crate::providers::flixhq::string_eq(&servers[i].name, &name) {
                return Ok(i);
            }
            i = i + 1;
        }
        Err(ExtractorError::NotFound)
    }

    /// Assembles one page of search results; the totals count the merged
    /// results.
    pub fn build_search_results(
        &self,
        current_page: usize,
        has_next_page: bool,
        total_pages: usize,
        results: Vec<DramaCoolResult>,
    ) -> (r: DramaCoolSearchResults)
        ensures
            r.current_page == current_page,
            r.has_next_page == has_next_page,
            r.total_pages == total_pages,
            r.total_results == results@.len(),
            r.results == results,
    {
        let total_results = results.len();
        DramaCoolSearchResults { current_page, has_next_page, total_pages, total_results, results }
    }

    /// Assembles full info from a scraped result and the episode list;
    /// the total counts the episodes.
    pub fn build_info(&self, result: DramaCoolResult, episodes: Vec<DramaCoolEpisode>) -> (r:
        DramaCoolInfo)
        ensures
            r.id == result.id,
            r.title == result.title,
            r.url == result.url,
            r.image == result.image,
            r.status == result.status,
            r.release_date == result.release_date,
            r.other_names == result.other_names,
            r.description == result.description,
            r.genres == result.genres,
            r.country == result.country,
            r.total_episodes == episodes@.len(),
            r.episodes == episodes,
    {
        let total_episodes = episodes.len();
        DramaCoolInfo {
            total_episodes,
            episodes,
            id: result.id,
            title: result.title,
            url: result.url,
            image: result.image,
            status: result.status,
            release_date: result.release_date,
            other_names: result.other_names,
            description: result.description,
            genres: result.genres,
            country: result.country,
        }
    }
}

} // verus!
