//! The flixhq provider: result types and the verified parts of its flows —
//! the URLs it requests, the server selection, and the assembly of search
//! results and media info from scraped values.

use vstd::prelude::*;

use crate::extractors::MixDropSource;
use crate::extractors::MixDropSubtitle;
use crate::manifest::VidCloudSource;
use crate::manifest::VidCloudSubtitle;
use crate::models::types::StreamingServers;
use crate::models::types::TvType;
use crate::strutil;

verus! {

use vstd::string::StringExecFns;

/// The flixhq provider.
#[derive(Debug)]
pub struct FlixHQ;

/// Which extractor produced the sources.
#[derive(Debug)]
pub enum FlixHQSourceType {
    VidCloud(Vec<VidCloudSource>),
    MixDrop(Vec<MixDropSource>),
}

/// Which extractor produced the subtitles.
#[derive(Debug)]
pub enum FlixHQSubtitles {
    VidCloud(Vec<VidCloudSubtitle>),
    MixDrop(Vec<MixDropSubtitle>),
}

/// A resolved episode: sources, subtitles and the referer header value.
#[derive(Debug)]
pub struct FlixHQSources {
    pub headers: String,
    pub subtitles: FlixHQSubtitles,
    pub sources: FlixHQSourceType,
}

/// The servers an episode is available on.
#[derive(Debug)]
pub struct FlixHQServers {
    pub servers: Vec<FlixHQServer>,
}

/// One server entry.
#[derive(Debug)]
pub struct FlixHQServer {
    pub name: String,
    pub url: String,
}

/// The seasons of a show, each a list of episodes.
#[derive(Debug, Clone)]
pub struct FlixHQSeason {
    pub total_seasons: usize,
    pub episodes: Vec<Vec<FlixHQEpisode>>,
}

/// One episode entry.
#[derive(Debug, Clone)]
pub struct FlixHQEpisode {
    pub id: String,
    pub title: String,
    pub url: String,
}

/// One page of search results.
#[derive(Debug)]
pub struct FlixHQSearchResults {
    pub current_page: usize,
    pub has_next_page: bool,
    pub total_pages: usize,
    pub total_results: usize,
    pub results: Vec<FlixHQResult>,
}

/// One scraped result entry.
#[derive(Debug, Clone)]
pub struct FlixHQResult {
    pub id: String,
    pub cover: String,
    pub title: String,
    pub url: String,
    pub image: String,
    pub release_date: String,
    pub media_type: TvType,
    pub genres: Vec<String>,
    pub description: String,
    pub rating: String,
    pub quality: String,
    pub duration: String,
    pub country: Vec<String>,
    pub production: Vec<String>,
    pub casts: Vec<String>,
    pub tags: Vec<String>,
}

/// Full info: a show with seasons, or a single movie.
#[derive(Debug)]
pub enum FlixHQInfo {
    Tv(FlixHQShow),
    Movie(FlixHQMovie),
}

/// Full movie info.
#[derive(Debug)]
pub struct FlixHQMovie {
    pub id: String,
    pub cover: String,
    pub title: String,
    pub url: String,
    pub image: String,
    pub release_date: String,
    pub media_type: TvType,
    pub genres: Vec<String>,
    pub description: String,
    pub rating: String,
    pub quality: String,
    pub duration: String,
    pub country: Vec<String>,
    pub production: Vec<String>,
    pub casts: Vec<String>,
    pub tags: Vec<String>,
}

/// Full show info.
#[derive(Debug)]
pub struct FlixHQShow {
    pub id: String,
    pub cover: String,
    pub title: String,
    pub url: String,
    pub image: String,
    pub release_date: String,
    pub media_type: TvType,
    pub genres: Vec<String>,
    pub description: String,
    pub rating: String,
    pub quality: String,
    pub duration: String,
    pub country: Vec<String>,
    pub production: Vec<String>,
    pub casts: Vec<String>,
    pub tags: Vec<String>,
    pub total_episodes: usize,
    pub seasons: FlixHQSeason,
}

/// The link a server's get-link endpoint answers with.
#[derive(Debug)]
pub struct FlixHQServerInfo {
    pub link: String,
}

/// The provider's base URL.
pub fn flixhq_base_url() -> (r: &'static str)
    ensures
        r@ == "https://flixhq.to"@,
{
    "https://flixhq.to"
}

impl FlixHQ {
    /// The search URL for a query and a page: spaces in the query become
    /// dashes.
    pub fn search_url(&self, query: &str, page: usize) -> (r: String)
        ensures
            r@ == "https://flixhq.to"@ + "/search/"@ + query@.map_values(
                |c: char|
                    if c == ' ' {
                        '-'
                    } else {
                        c
                    },
            ) + "?page="@ + strutil::dec_digits(page as int),
    {
        let parsed = strutil::replace_char(query, ' ', '-');
        let mut r = flixhq_base_url().to_owned();
        r.append("/search/");
        r.append(parsed.as_str());
        r.append("?page=");
        let page_str = strutil::usize_to_string(page);
        r.append(page_str.as_str());
        r
    }

    /// The info page URL of a media id.
    pub fn info_url(&self, media_id: &str) -> (r: String)
        ensures
            r@ == "https://flixhq.to"@ + "/"@ + media_id@,
    {
        let mut r = flixhq_base_url().to_owned();
        r.append("/");
        r.append(media_id);
        r
    }

    /// The seasons listing URL of a show id.
    pub fn seasons_url(&self, id: &str) -> (r: String)
        ensures
            r@ == "https://flixhq.to"@ + "/ajax/v2/tv/seasons/"@ + id@,
    {
        let mut r = flixhq_base_url().to_owned();
        r.append("/ajax/v2/tv/seasons/");
        r.append(id);
        r
    }

    /// The episodes listing URL of a season id.
    pub fn episodes_url(&self, season_id: &str) -> (r: String)
        ensures
            r@ == "https://flixhq.to"@ + "/ajax/v2/season/episodes/"@ + season_id@,
    {
        let mut r = flixhq_base_url().to_owned();
        r.append("/ajax/v2/season/episodes/");
        r.append(season_id);
        r
    }

    /// The get-link URL of a server id.
    pub fn get_link_url(&self, server_id: &str) -> (r: String)
        ensures
            r@ == "https://flixhq.to"@ + "/ajax/get_link/"@ + server_id@,
    {
        let mut r = flixhq_base_url().to_owned();
        r.append("/ajax/get_link/");
        r.append(server_id);
        r
    }

    /// The servers listing URL of an episode: an episode of a show goes
    /// through the episode-servers endpoint, a movie (or an id that is
    /// already such a URL) through the movie-episodes endpoint.
    pub fn episode_server_url(&self, episode_id: &str, media_id: &str) -> (r: String)
        ensures
            ({
                let plain = !strutil::match_at(episode_id@, "https://flixhq.to"@ + "/ajax"@, 0)
                    && !strutil::contains_seq(media_id@, "movie"@);
                (plain ==> r@ == "https://flixhq.to"@ + "/ajax/"@ + "v2/episode/servers/"@
                    + episode_id@) && (!plain ==> r@ == "https://flixhq.to"@ + "/ajax/"@
                    + "movie/episodes/"@ + episode_id@)
            }),
    {
        let mut prefix = flixhq_base_url().to_owned();
        prefix.append("/ajax");
        let plain = !strutil::str_starts_with(episode_id, prefix.as_str()) && !strutil::str_contains(
            media_id,
            "movie",
        );
        let mut r = flixhq_base_url().to_owned();
        r.append("/ajax/");
        if plain {
            r.append("v2/episode/servers/");
        } else {
            r.append("movie/episodes/");
        }
        r.append(episode_id);
        r
    }

    /// The numeric tail of a media id: what follows the last dash.
    pub fn media_numeric_id(&self, media_id: &str) -> (r: String)
        ensures
            r@ == strutil::spec_after_last(media_id@, '-'),
    {
        strutil::suffix_after_last(media_id, '-')
    }

    /// The server id of a server URL: what follows the last dot.
    pub fn server_id_from_url(&self, url: &str) -> (r: String)
        ensures
            r@ == strutil::spec_after_last(url@, '.'),
    {
        strutil::suffix_after_last(url, '.')
    }

    /// The position of the requested server in the list, or 0 when the
    /// list does not name it.
    pub fn find_server_index(&self, servers: &Vec<FlixHQServer>, server: StreamingServers) -> (r:
        usize)
        ensures
            r < servers@.len() || (r == 0 && servers@.len() == 0),
            forall|i: int|
                0 <= i < servers@.len() && (#[trigger] servers@[i].name)@ == server.spec_name()
                    ==> r <= i,
            r < servers@.len() && servers@[r as int].name@ != server.spec_name() ==> (r == 0
                && forall|i: int|
                0 <= i < servers@.len() ==> (#[trigger] servers@[i].name)@
                    != server.spec_name()),
    {
        let name = server.to_string();
        let n = servers.len();
        let mut i: usize = 0;
        while i < n
            invariant
                n == servers@.len(),
                i <= n,
                name@ == server.spec_name(),
                forall|k: int|
                    0 <= k < i ==> (#[trigger] servers@[k].name)@ != server.spec_name(),
            decreases n - i,
        {
            if string_eq(&servers[i].name, &name) {
                return i;
            }
            i = i + 1;
        }
        0
    }

    /// Assembles one page of search results; the totals count the merged
    /// results.
    pub fn build_search_results(
        &self,
        current_page: usize,
        has_next_page: bool,
        total_pages: usize,
        results: Vec<FlixHQResult>,
    ) -> (r: FlixHQSearchResults)
        ensures
            r.current_page == current_page,
            r.has_next_page == has_next_page,
            r.total_pages == total_pages,
            r.total_results == results@.len(),
            r.results == results,
    {
        let total_results = results.len();
        FlixHQSearchResults { current_page, has_next_page, total_pages, total_results, results }
    }

    /// Assembles movie info from a scraped result.
    pub fn build_movie(&self, result: FlixHQResult) -> (r: FlixHQMovie)
        ensures
            r.id == result.id,
            r.cover == result.cover,
            r.title == result.title,
            r.url == result.url,
            r.image == result.image,
            r.release_date == result.release_date,
            r.media_type == result.media_type,
            r.genres == result.genres,
            r.description == result.description,
            r.rating == result.rating,
            r.quality == result.quality,
            r.duration == result.duration,
            r.country == result.country,
            r.production == result.production,
            r.casts == result.casts,
            r.tags == result.tags,
    {
        FlixHQMovie {
            id: result.id,
            cover: result.cover,
            title: result.title,
            url: result.url,
            image: result.image,
            release_date: result.release_date,
            media_type: result.media_type,
            genres: result.genres,
            description: result.description,
            rating: result.rating,
            quality: result.quality,
            duration: result.duration,
            country: result.country,
            production: result.production,
            casts: result.casts,
            tags: result.tags,
        }
    }

    /// Assembles show info from a scraped result and its seasons: the
    /// season count is the number of season lists, and the episode total
    /// counts the last season's episodes.
    pub fn build_show(&self, result: FlixHQResult, seasons_and_episodes: Vec<Vec<FlixHQEpisode>>)
        -> (r: FlixHQShow)
        requires
            seasons_and_episodes@.len() > 0,
        ensures
            r.id == result.id,
            r.title == result.title,
            r.url == result.url,
            r.media_type == result.media_type,
            r.total_episodes == seasons_and_episodes@.last()@.len(),
            r.seasons.total_seasons == seasons_and_episodes@.len(),
            r.seasons.episodes == seasons_and_episodes,
    {
        let total_seasons = seasons_and_episodes.len();
        let total_episodes = seasons_and_episodes[total_seasons - 1].len();
        FlixHQShow {
            total_episodes,
            seasons: FlixHQSeason { total_seasons, episodes: seasons_and_episodes },
            id: result.id,
            cover: result.cover,
            title: result.title,
            url: result.url,
            image: result.image,
            release_date: result.release_date,
            media_type: result.media_type,
            genres: result.genres,
            description: result.description,
            rating: result.rating,
            quality: result.quality,
            duration: result.duration,
            country: result.country,
            production: result.production,
            casts: result.casts,
            tags: result.tags,
        }
    }
}

/// Whether two strings hold the same characters.
pub fn string_eq(a: &String, b: &String) -> (r: bool)
    ensures
        r == (a@ == b@),
{
    a.eq(b)
}

} // verus!
