//! The shared result and info types.
//!
//! These are plain data carriers: search results, media info, episodes,
//! sources and subtitles, together with the enums naming media formats,
//! statuses and streaming servers. The enums expose their display names
//! through `to_string` methods with exact contracts.

use vstd::prelude::*;

use std::collections::HashMap;

verus! {

use vstd::string::StringExecFns;

/// Per-host extraction knobs: each implementation reads the fields it
/// recognizes and ignores the rest.
#[derive(Clone, Debug)]
pub struct ExtractConfig {
    pub vis_cloud_helper: Option<String>,
    pub api_key: Option<String>,
    pub is_alternative: Option<bool>,
    pub user_agent: Option<String>,
}

impl Default for ExtractConfig {
    /// The default configuration leaves every knob unset.
    fn default() -> (r: Self)
        ensures
            r.vis_cloud_helper is None,
            r.api_key is None,
            r.is_alternative is None,
            r.user_agent is None,
    {
        ExtractConfig { vis_cloud_helper: None, api_key: None, is_alternative: None, user_agent: None }
    }
}

/// Extra fields some providers attach to a result.
#[derive(Clone, Debug)]
pub enum Other {
    Poster(String),
}

/// Book info.
#[derive(Debug)]
pub struct Book {
    pub title: String,
    pub authors: Vec<String>,
    pub publisher: String,
    pub year: String,
    pub edition: String,
    pub volume: String,
    pub series: String,
    pub isbn: Vec<String>,
    pub image: String,
    pub description: String,
    pub link: String,
}

/// File hashes of a book entry.
#[derive(Debug)]
pub struct Hashes {
    pub aich: String,
    pub crc32: String,
    pub edonkey: String,
    pub md5: String,
    pub sha1: String,
    pub sha256: Vec<String>,
    pub tth: String,
}

/// Title variants of a media entry.
#[derive(Debug)]
pub struct ITitle {
    pub romaji: Option<String>,
    pub english: Option<String>,
    pub native: Option<String>,
    pub user_preferred: Option<String>,
}

/// One anime search result.
#[derive(Debug)]
pub struct IAnimeResult {
    pub id: String,
    pub title: ITitle,
    pub url: Option<String>,
    pub image: Option<String>,
    pub cover: Option<String>,
    pub status: Option<MediaStatus>,
    pub rating: Option<u32>,
    pub show_type: Option<MediaFormat>,
    pub release_date: Option<String>,
}

/// One page of search results.
#[derive(Debug)]
pub struct ISearch<T> {
    pub current_page: Option<usize>,
    pub has_next_page: bool,
    pub total_pages: Option<usize>,
    pub total_results: usize,
    pub results: Vec<T>,
}

/// A media trailer reference.
#[derive(Debug)]
pub struct Trailer {
    pub id: String,
    pub site: Option<String>,
    pub thumbnail: Option<String>,
}

/// A date whose parts may each be unknown.
#[derive(Debug)]
pub struct FuzzyDate {
    pub year: Option<u32>,
    pub month: Option<u32>,
    pub day: Option<u32>,
}

/// The format of a media entry.
#[derive(Clone, Copy, Debug, PartialEq, Eq, Structural)]
pub enum MediaFormat {
    Tv,
    TvShort,
    Movie,
    Special,
    Ova,
    Ona,
    Music,
    Manga,
    Novel,
    OneShot,
}

impl MediaFormat {
    /// The display name of the format.
    pub fn to_string(&self) -> (r: String)
        ensures
            *self is Tv ==> r@ == "TV"@,
            *self is TvShort ==> r@ == "TV_SHORT"@,
            *self is Movie ==> r@ == "MOVIE"@,
            *self is Special ==> r@ == "SPECIAL"@,
            *self is Ova ==> r@ == "OVA"@,
            *self is Ona ==> r@ == "ONA"@,
            *self is Music ==> r@ == "MUSIC"@,
            *self is Manga ==> r@ == "MANGA"@,
            *self is Novel ==> r@ == "NOVEL"@,
            *self is OneShot ==> r@ == "ONE_SHOT"@,
    {
        let s: &str = match self {
            MediaFormat::Tv => "TV",
            MediaFormat::TvShort => "TV_SHORT",
            MediaFormat::Movie => "MOVIE",
            MediaFormat::Special => "SPECIAL",
            MediaFormat::Ova => "OVA",
            MediaFormat::Ona => "ONA",
            MediaFormat::Music => "MUSIC",
            MediaFormat::Manga => "MANGA",
            MediaFormat::Novel => "NOVEL",
            MediaFormat::OneShot => "ONE_SHOT",
        };
        s.to_owned()
    }
}

/// Full anime info.
#[derive(Debug)]
pub struct IAnimeInfo {
    pub mal_id: Option<u32>,
    pub genres: Option<Vec<String>>,
    pub description: Option<String>,
    pub status: Option<MediaStatus>,
    pub total_episodes: Option<u32>,
    pub sub_or_dub: Option<SubOrSub>,
    pub synonyms: Option<Vec<String>>,
    pub country_of_origin: Option<String>,
    pub is_adult: Option<bool>,
    pub is_licensed: Option<bool>,
    pub season: Option<String>,
    pub studios: Option<Vec<String>>,
    pub color: Option<String>,
    pub cover: Option<String>,
    pub trailer: Option<Trailer>,
    pub episodes: Option<Vec<IAnimeEpisode>>,
    pub start_date: Option<FuzzyDate>,
    pub end_date: Option<FuzzyDate>,
    pub recommendations: Option<IAnimeResult>,
    pub relations: Option<Vec<IAnimeResult>>,
}

/// One anime episode.
#[derive(Debug)]
pub struct IAnimeEpisode {
    pub id: String,
    pub episode_number: u32,
    pub title: Option<String>,
    pub description: Option<String>,
    pub is_filler: Option<bool>,
    pub url: Option<String>,
    pub image: Option<String>,
    pub release_date: Option<String>,
}

/// One episode server entry.
#[derive(Debug)]
pub struct IEpisodeServer {
    pub name: Option<String>,
    pub url: Option<String>,
}

/// One video source.
#[derive(Clone, Debug)]
pub struct IVideo {
    pub url: Option<String>,
    pub quality: Option<String>,
    pub is_m3u8: Option<bool>,
    pub is_dash: Option<bool>,
    pub size: Option<u32>,
    pub other: Option<HashMap<String, Other>>,
}

impl IVideo {
    /// An entirely unset video source.
    pub fn empty() -> (r: IVideo)
        ensures
            r.url is None,
            r.quality is None,
            r.is_m3u8 is None,
            r.is_dash is None,
            r.size is None,
            r.other is None,
    {
        IVideo { url: None, quality: None, is_m3u8: None, is_dash: None, size: None, other: None }
    }
}

/// The streaming servers a provider can hand an episode to.
#[derive(Clone, Copy, Debug, PartialEq, Eq, Structural)]
pub enum StreamingServers {
    AsianLoad,
    GogoCDN,
    StreamSB,
    MixDrop,
    UpCloud,
    VidCloud,
    StreamTape,
    VizCloud,
    MyCloud,
    Filemoon,
    VidStreaming,
}

impl StreamingServers {
    /// The display name, at the spec level.
    pub open spec fn spec_name(&self) -> Seq<char> {
        match self {
            StreamingServers::AsianLoad => "AsianLoad"@,
            StreamingServers::GogoCDN => "GogoCDN"@,
            StreamingServers::StreamSB => "StreamSB"@,
            StreamingServers::MixDrop => "MixDrop"@,
            StreamingServers::UpCloud => "UpCloud"@,
            StreamingServers::VidCloud => "VidCloud"@,
            StreamingServers::StreamTape => "StreamTape"@,
            StreamingServers::VizCloud => "VizCloud"@,
            StreamingServers::MyCloud => "MyCloud"@,
            StreamingServers::Filemoon => "FileMoon"@,
            StreamingServers::VidStreaming => "VidStreaming"@,
        }
    }

    /// The lower-case display name, at the spec level.
    pub open spec fn spec_lowercase_name(&self) -> Seq<char> {
        match self {
            StreamingServers::AsianLoad => "asianload"@,
            StreamingServers::GogoCDN => "gogocdn"@,
            StreamingServers::StreamSB => "streamsb"@,
            StreamingServers::MixDrop => "mixdrop"@,
            StreamingServers::UpCloud => "upcloud"@,
            StreamingServers::VidCloud => "vidcloud"@,
            StreamingServers::StreamTape => "streamtape"@,
            StreamingServers::VizCloud => "vizcloud"@,
            StreamingServers::MyCloud => "mycloud"@,
            StreamingServers::Filemoon => "filemoon"@,
            StreamingServers::VidStreaming => "vidstreaming"@,
        }
    }

    /// The display name of the server.
    pub fn to_string(&self) -> (r: String)
        ensures
            r@ == self.spec_name(),
    {
        let s: &str = match self {
            StreamingServers::AsianLoad => "AsianLoad",
            StreamingServers::GogoCDN => "GogoCDN",
            StreamingServers::StreamSB => "StreamSB",
            StreamingServers::MixDrop => "MixDrop",
            StreamingServers::UpCloud => "UpCloud",
            StreamingServers::VidCloud => "VidCloud",
            StreamingServers::StreamTape => "StreamTape",
            StreamingServers::VizCloud => "VizCloud",
            StreamingServers::MyCloud => "MyCloud",
            StreamingServers::Filemoon => "FileMoon",
            StreamingServers::VidStreaming => "VidStreaming",
        };
        s.to_owned()
    }

    /// The lower-case form of the display name, as provider pages list it.
    pub fn lowercase_name(&self) -> (r: String)
        ensures
            r@ == self.spec_lowercase_name(),
    {
        let s: &str = match self {
            StreamingServers::AsianLoad => "asianload",
            StreamingServers::GogoCDN => "gogocdn",
            StreamingServers::StreamSB => "streamsb",
            StreamingServers::MixDrop => "mixdrop",
            StreamingServers::UpCloud => "upcloud",
            StreamingServers::VidCloud => "vidcloud",
            StreamingServers::StreamTape => "streamtape",
            StreamingServers::VizCloud => "vizcloud",
            StreamingServers::MyCloud => "mycloud",
            StreamingServers::Filemoon => "filemoon",
            StreamingServers::VidStreaming => "vidstreaming",
        };
        s.to_owned()
    }
}

/// The publication status of a media entry.
#[derive(Clone, Copy, Debug, PartialEq, Eq, Structural)]
pub enum MediaStatus {
    OnGoing,
    Completed,
    Hiatus,
    Cancelled,
    NotYetAired,
    Unknown,
}

impl MediaStatus {
    /// The display name of the status.
    pub fn to_string(&self) -> (r: String)
        ensures
            *self is OnGoing ==> r@ == "Ongoing"@,
            *self is Completed ==> r@ == "Completed"@,
            *self is Hiatus ==> r@ == "Hiatus"@,
            *self is Cancelled ==> r@ == "Cancelled"@,
            *self is NotYetAired ==> r@ == "Not yet aired"@,
            *self is Unknown ==> r@ == "Unknown"@,
    {
        let s: &str = match self {
            MediaStatus::OnGoing => "Ongoing",
            MediaStatus::Completed => "Completed",
            MediaStatus::Hiatus => "Hiatus",
            MediaStatus::Cancelled => "Cancelled",
            MediaStatus::NotYetAired => "Not yet aired",
            MediaStatus::Unknown => "Unknown",
        };
        s.to_owned()
    }
}

/// Whether an entry is subbed, dubbed, or both.
#[derive(Clone, Copy, Debug, PartialEq, Eq, Structural)]
pub enum SubOrSub {
    Sub,
    Dub,
    Both,
}

impl SubOrSub {
    /// The display name of the variant.
    pub fn to_string(&self) -> (r: String)
        ensures
            *self is Sub ==> r@ == "sub"@,
            *self is Dub ==> r@ == "dub"@,
            *self is Both ==> r@ == "both"@,
    {
        let s: &str = match self {
            SubOrSub::Sub => "sub",
            SubOrSub::Dub => "dub",
            SubOrSub::Both => "both",
        };
        s.to_owned()
    }
}

/// One manga search result.
#[derive(Debug)]
pub struct IMangaResult {
    pub id: String,
    pub title: String,
    pub alt_titles: Option<Vec<String>>,
    pub image: Option<String>,
    pub description: Option<String>,
    pub status: Option<MediaStatus>,
    pub release_date: Option<u32>,
}

/// One manga chapter.
#[derive(Debug)]
pub struct IMangaChapter {
    pub id: String,
    pub title: String,
    pub volume: Option<u32>,
    pub pages: Option<u32>,
    pub release_date: Option<String>,
}

/// Full manga info.
#[derive(Debug)]
pub struct IMangaInfo {
    pub mal_id: Option<u32>,
    pub authors: Option<Vec<String>>,
    pub genres: Option<Vec<String>>,
    pub links: Option<Vec<String>>,
    pub characters: Option<Vec<String>>,
    pub recommendations: Option<Vec<IMangaResult>>,
    pub chapters: Option<Vec<IMangaChapter>>,
}

/// One manga chapter page.
#[derive(Debug)]
pub struct IMangaChapterPage {
    pub img: String,
    pub page: u32,
}

/// One light novel search result.
#[derive(Debug)]
pub struct ILightNovelResult {
    pub id: String,
    pub title: String,
    pub url: String,
    pub image: Option<String>,
}

/// One light novel chapter.
#[derive(Debug)]
pub struct ILightNovelChapter {
    pub id: String,
    pub title: String,
    pub volume: Option<u32>,
    pub url: Option<String>,
}

/// The content of one light novel chapter.
#[derive(Debug)]
pub struct ILightNovelChapterContent {
    pub text: String,
    pub html: Option<String>,
}

/// Full light novel info.
#[derive(Debug)]
pub struct ILightNovelInfo {
    pub authors: Option<Vec<String>>,
    pub genres: Option<Vec<String>>,
    pub description: Option<String>,
    pub chapters: Option<Vec<ILightNovelChapter>>,
    pub status: Option<MediaStatus>,
    pub views: Option<u32>,
    pub rating: Option<u32>,
}

/// One book search result.
#[derive(Debug)]
pub struct LibgenBook {
    pub title: String,
    pub authors: Vec<String>,
    pub publisher: String,
    pub year: String,
    pub edition: String,
    pub volume: String,
    pub series: String,
    pub isbn: Vec<String>,
    pub link: String,
    pub id: String,
    pub language: String,
    pub format: String,
    pub size: String,
    pub pages: String,
    pub image: String,
    pub description: String,
    pub table_of_contents: String,
    pub topic: String,
    pub hashes: Hashes,
}

/// A page of book search results.
#[derive(Debug)]
pub struct LibgenResult {
    pub result: Vec<LibgenBook>,
    pub has_next_page: bool,
}

/// One comic entry.
#[derive(Debug)]
pub struct GetComicsComics {
    pub image: String,
    pub title: String,
    pub year: String,
    pub size: String,
    pub excerpt: String,
    pub category: String,
    pub description: String,
    pub download: String,
    pub ufile: String,
    pub mega: String,
    pub mediafire: String,
    pub zippyshare: String,
    pub read_online: String,
}

/// A page of comic results.
#[derive(Debug)]
pub struct ComicRes {
    pub containers: Vec<GetComicsComics>,
    pub has_next_page: bool,
}

/// Book info from a library source.
#[derive(Debug)]
pub struct ZLibrary {
    pub book_rating: String,
    pub book_quality: String,
    pub language: String,
    pub size: String,
    pub pages: String,
}

/// One subtitle entry.
#[derive(Clone, Debug)]
pub struct ISubtitle {
    pub id: Option<String>,
    pub url: Option<String>,
    pub lang: Option<String>,
}

/// The start and end of an intro, in seconds.
#[derive(Debug)]
pub struct Intro {
    pub start: u32,
    pub end: u32,
}

/// A full source answer: headers, intro, subtitles and sources.
#[derive(Debug)]
pub struct ISource {
    pub headers: Option<String>,
    pub intro: Option<Intro>,
    pub subtitles: Option<Vec<ISubtitle>>,
    pub sources: Option<Vec<IVideo>>,
}

/// The kind of a movie/TV provider entry.
#[derive(Clone, Copy, PartialEq, Eq, Hash, Debug, Structural)]
pub enum TvType {
    TvSeries,
    Movie,
    Anime,
}

impl TvType {
    /// The display name of the kind.
    pub fn to_string(&self) -> (r: String)
        ensures
            *self is TvSeries ==> r@ == "TV Series"@,
            *self is Movie ==> r@ == "Movie"@,
            *self is Anime ==> r@ == "Anime"@,
    {
        let s: &str = match self {
            TvType::TvSeries => "TV Series",
            TvType::Movie => "Movie",
            TvType::Anime => "Anime",
        };
        s.to_owned()
    }
}

/// One movie/TV episode.
#[derive(Clone, Debug)]
pub struct IMovieEpisode {
    pub id: String,
    pub title: Option<String>,
    pub url: String,
    pub number: Option<u32>,
    pub season: Option<usize>,
    pub description: Option<String>,
    pub image: Option<String>,
    pub release_date: Option<String>,
}

/// One movie/TV search result.
#[derive(Debug)]
pub struct IMovieResult {
    pub id: Option<String>,
    pub cover: Option<String>,
    pub title: String,
    pub other_names: Option<Vec<String>>,
    pub url: Option<String>,
    pub image: Option<String>,
    pub release_date: String,
    pub media_type: Option<TvType>,
}

/// One news feed entry.
#[derive(Debug)]
pub struct INewsFeed {
    pub topics: Vec<Topics>,
    pub preview: INewsFeedPreview,
}

/// The body of one news entry.
#[derive(Debug)]
pub struct INewsInfo {
    pub intro: String,
    pub description: String,
}

/// One news entry.
#[derive(Debug)]
pub struct INews {
    pub id: String,
    pub title: String,
    pub uploaded_at: String,
    pub thumbnail: String,
    pub url: String,
}

/// The preview of one news feed entry.
#[derive(Debug)]
pub struct INewsFeedPreview {
    pub intro: String,
    pub full: String,
}

/// One season of a movie/TV entry.
#[derive(Clone, Debug)]
pub struct IMovieSeason {
    pub season: Option<usize>,
    pub image: Option<String>,
    pub episodes: Option<Vec<Vec<IMovieEpisode>>>,
}

/// Full movie/TV info.
#[derive(Clone, Debug)]
pub struct IMovieInfo {
    pub genres: Option<Vec<String>>,
    pub description: Option<String>,
    pub rating: Option<String>,
    pub status: Option<MediaStatus>,
    pub quality: Option<String>,
    pub duration: Option<String>,
    pub country: Option<Vec<String>>,
    pub production: Option<Vec<String>>,
    pub casts: Option<Vec<String>>,
    pub tags: Option<Vec<String>>,
    pub total_episodes: Option<usize>,
    pub seasons: Option<IMovieSeason>,
    pub episodes: Option<Vec<Vec<IMovieEpisode>>>,
}

/// The genres a provider can filter by.
#[derive(Clone, Copy, Debug, PartialEq, Eq, Structural)]
pub enum Genres {
    Action,
    Adventure,
    Cars,
    Comedy,
    Drama,
    Ecchi,
    Fantasy,
    Horror,
    MahouShoujo,
    Mecha,
    Music,
    Mystery,
    Psychological,
    Romance,
    Scifi,
    SliceOfLife,
    Sports,
    SuperNatural,
    Thriller,
}

impl Genres {
    /// The display name of the genre.
    pub fn to_string(&self) -> (r: String)
        ensures
            *self is Action ==> r@ == "Action"@,
            *self is Adventure ==> r@ == "Adventure"@,
            *self is Cars ==> r@ == "Cars"@,
            *self is Comedy ==> r@ == "Comedy"@,
            *self is Drama ==> r@ == "Drama"@,
            *self is Ecchi ==> r@ == "Ecchi"@,
            *self is Fantasy ==> r@ == "Fantasy"@,
            *self is Horror ==> r@ == "Horror"@,
            *self is MahouShoujo ==> r@ == "Mahou Shoujo"@,
            *self is Mecha ==> r@ == "Mecha"@,
            *self is Music ==> r@ == "Music"@,
            *self is Mystery ==> r@ == "Mystery"@,
            *self is Psychological ==> r@ == "Psychological"@,
            *self is Romance ==> r@ == "Romance"@,
            *self is Scifi ==> r@ == "Sci-Fi"@,
            *self is SliceOfLife ==> r@ == "Slice of Life"@,
            *self is Sports ==> r@ == "Sports"@,
            *self is SuperNatural ==> r@ == "Supernatural"@,
            *self is Thriller ==> r@ == "Thriller"@,
    {
        let s: &str = match self {
            Genres::Action => "Action",
            Genres::Adventure => "Adventure",
            Genres::Cars => "Cars",
            Genres::Comedy => "Comedy",
            Genres::Drama => "Drama",
            Genres::Ecchi => "Ecchi",
            Genres::Fantasy => "Fantasy",
            Genres::Horror => "Horror",
            Genres::MahouShoujo => "Mahou Shoujo",
            Genres::Mecha => "Mecha",
            Genres::Music => "Music",
            Genres::Mystery => "Mystery",
            Genres::Psychological => "Psychological",
            Genres::Romance => "Romance",
            Genres::Scifi => "Sci-Fi",
            Genres::SliceOfLife => "Slice of Life",
            Genres::Sports => "Sports",
            Genres::SuperNatural => "Supernatural",
            Genres::Thriller => "Thriller",
        };
        s.to_owned()
    }
}

/// The topics a news provider can filter by.
#[derive(Clone, Copy, Debug, PartialEq, Eq, Structural)]
pub enum Topics {
    Anime,
    Animation,
    Manga,
    Games,
    Novels,
    LiveAction,
    Covid19,
    Industry,
    Music,
    People,
    Merch,
    Events,
}

impl Topics {
    /// The display name of the topic.
    pub fn to_string(&self) -> (r: String)
        ensures
            *self is Anime ==> r@ == "Anime"@,
            *self is Animation ==> r@ == "Animation"@,
            *self is Manga ==> r@ == "Manga"@,
            *self is Games ==> r@ == "Games"@,
            *self is Novels ==> r@ == "Novels"@,
            *self is LiveAction ==> r@ == "LiveAction"@,
            *self is Covid19 ==> r@ == "Covid19"@,
            *self is Industry ==> r@ == "Industry"@,
            *self is Music ==> r@ == "Music"@,
            *self is People ==> r@ == "People"@,
            *self is Merch ==> r@ == "Merch"@,
            *self is Events ==> r@ == "Events"@,
    {
        let s: &str = match self {
            Topics::Anime => "Anime",
            Topics::Animation => "Animation",
            Topics::Manga => "Manga",
            Topics::Games => "Games",
            Topics::Novels => "Novels",
            Topics::LiveAction => "LiveAction",
            Topics::Covid19 => "Covid19",
            Topics::Industry => "Industry",
            Topics::Music => "Music",
            Topics::People => "People",
            Topics::Merch => "Merch",
            Topics::Events => "Events",
        };
        s.to_owned()
    }
}

/// Optional proxy configuration.
#[derive(Debug)]
pub struct ProxyConfig {
    pub url: String,
    pub key: Option<String>,
    pub rotate_interval: usize,
}

} // verus!
