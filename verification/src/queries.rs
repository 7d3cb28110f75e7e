//! The upstream GraphQL query texts.
//!
//! Each function renders one query: the constant ones return their text
//! unchanged, the parametric ones splice page numbers, titles and filters
//! into fixed templates. Every contract pins the rendered text exactly.

use vstd::prelude::*;

use crate::strutil;

verus! {

use vstd::string::StringExecFns;

/// What a media query asks for.
pub enum AnilistType {
    Anime,
    Manga,
}

impl AnilistType {
    /// The display name, at the spec level.
    pub open spec fn spec_name(&self) -> Seq<char> {
        match self {
            AnilistType::Anime => "ANIME"@,
            AnilistType::Manga => "MANGA"@,
        }
    }

    /// The display name of the query kind.
    pub fn to_string(&self) -> (r: String)
        ensures
            r@ == self.spec_name(),
    {
        let s: &str = match self {
            AnilistType::Anime => "ANIME",
            AnilistType::Manga => "MANGA",
        };
        s.to_owned()
    }
}

/// An optional number, with its default.
pub open spec fn spec_u32_or(v: Option<u32>, d: u32) -> int {
    match v {
        Some(x) => x as int,
        None => d as int,
    }
}

/// An optional number, with its default.
fn u32_or(v: Option<u32>, d: u32) -> (r: u32)
    ensures
        r as int == spec_u32_or(v, d),
{
    match v {
        Some(x) => x,
        None => d,
    }
}

/// The rendering of a boolean.
pub open spec fn spec_bool_str(b: bool) -> Seq<char> {
    if b {
        "true"@
    } else {
        "false"@
    }
}

/// The rendering of a boolean.
fn bool_str(b: bool) -> (r: String)
    ensures
        r@ == spec_bool_str(b),
{
    let s: &str = if b {
        "true"
    } else {
        "false"
    };
    s.to_owned()
}

/// The JSON text of a list of strings.
pub uninterp spec fn json_of_strings(items: Seq<Seq<char>>) -> Seq<char>;

/// Serializes a list of strings as a JSON array.
///
/// Relies on `serde_json::to_string` for `Vec<String>`: the text depends
/// on the strings alone, and serializing strings cannot fail.
#[verifier::external_body]
fn json_string_list(items: &Vec<String>) -> (r: String)
    ensures
        r@ == json_of_strings(items.deep_view()),
{
    serde_json::to_string(items).expect("serializing strings cannot fail")
}

/// The advanced search query, with every filter variable declared.
pub fn anilist_advanced_query() -> (r: &'static str)
    ensures
        r@ == "query ($page: Int, $id: Int, $type: MediaType, $isAdult: Boolean = false, $search: String, $format: [MediaFormat], $status: MediaStatus, $size: Int, $countryOfOrigin: CountryCode, $source: MediaSource, $season: MediaSeason, $seasonYear: Int, $year: String, $onList: Boolean, $yearLesser: FuzzyDateInt, $yearGreater: FuzzyDateInt, $episodeLesser: Int, $episodeGreater: Int, $durationLesser: Int, $durationGreater: Int, $chapterLesser: Int, $chapterGreater: Int, $volumeLesser: Int, $volumeGreater: Int, $licensedBy: [String], $isLicensed: Boolean, $genres: [String], $excludedGenres: [String], $tags: [String], $excludedTags: [String], $minimumTagRank: Int, $sort: [MediaSort] = [POPULARITY_DESC, SCORE_DESC]) {{ Page(page: $page, perPage: $size) {{ pageInfo {{ total perPage currentPage lastPage hasNextPage }} media(id: $id, type: $type, season: $season, format_in: $format, status: $status, countryOfOrigin: $countryOfOrigin, source: $source, search: $search, onList: $onList, seasonYear: $seasonYear, startDate_like: $year, startDate_lesser: $yearLesser, startDate_greater: $yearGreater, episodes_lesser: $episodeLesser, episodes_greater: $episodeGreater, duration_lesser: $durationLesser, duration_greater: $durationGreater, chapters_lesser: $chapterLesser, chapters_greater: $chapterGreater, volumes_lesser: $volumeLesser, volumes_greater: $volumeGreater, licensedBy_in: $licensedBy, isLicensed: $isLicensed, genre_in: $genres, genre_not_in: $excludedGenres, tag_in: $tags, tag_not_in: $excludedTags, minimumTagRank: $minimumTagRank, sort: $sort, isAdult: $isAdult) {{  id idMal status(version: 2) title {{ userPreferred romaji english native } bannerImage coverImage{{ extraLarge large medium color }} episodes season popularity description format seasonYear genres averageScore countryOfOrigin nextAiringEpisode {{ airingAt timeUntilAiring episode }}  }} }} }}"@,
{
    "query ($page: Int, $id: Int, $type: MediaType, $isAdult: Boolean = false, $search: String, $format: [MediaFormat], $status: MediaStatus, $size: Int, $countryOfOrigin: CountryCode, $source: MediaSource, $season: MediaSeason, $seasonYear: Int, $year: String, $onList: Boolean, $yearLesser: FuzzyDateInt, $yearGreater: FuzzyDateInt, $episodeLesser: Int, $episodeGreater: Int, $durationLesser: Int, $durationGreater: Int, $chapterLesser: Int, $chapterGreater: Int, $volumeLesser: Int, $volumeGreater: Int, $licensedBy: [String], $isLicensed: Boolean, $genres: [String], $excludedGenres: [String], $tags: [String], $excludedTags: [String], $minimumTagRank: Int, $sort: [MediaSort] = [POPULARITY_DESC, SCORE_DESC]) {{ Page(page: $page, perPage: $size) {{ pageInfo {{ total perPage currentPage lastPage hasNextPage }} media(id: $id, type: $type, season: $season, format_in: $format, status: $status, countryOfOrigin: $countryOfOrigin, source: $source, search: $search, onList: $onList, seasonYear: $seasonYear, startDate_like: $year, startDate_lesser: $yearLesser, startDate_greater: $yearGreater, episodes_lesser: $episodeLesser, episodes_greater: $episodeGreater, duration_lesser: $durationLesser, duration_greater: $durationGreater, chapters_lesser: $chapterLesser, chapters_greater: $chapterGreater, volumes_lesser: $volumeLesser, volumes_greater: $volumeGreater, licensedBy_in: $licensedBy, isLicensed: $isLicensed, genre_in: $genres, genre_not_in: $excludedGenres, tag_in: $tags, tag_not_in: $excludedTags, minimumTagRank: $minimumTagRank, sort: $sort, isAdult: $isAdult) {{  id idMal status(version: 2) title {{ userPreferred romaji english native } bannerImage coverImage{{ extraLarge large medium color }} episodes season popularity description format seasonYear genres averageScore countryOfOrigin nextAiringEpisode {{ airingAt timeUntilAiring episode }}  }} }} }}"
}

/// The site statistics query.
pub fn anilist_site_statistics_query() -> (r: &'static str)
    ensures
        r@ == "query { SiteStatistics { anime { nodes { count } } } }"@,
{
    "query { SiteStatistics { anime { nodes { count } } } }"
}

/// The character detail query.
pub fn anilist_character_query() -> (r: &'static str)
    ensures
        r@ == "query character($id: Int) { Character(id: $id) { id name { first middle last full native userPreferred alternative alternativeSpoiler } image { large medium } description gender dateOfBirth { year month day } bloodType age favourites media { edges { characterRole node { id idMal title { romaji english native userPreferred } coverImage { extraLarge large medium color } averageScore startDate { year month day } episodes format status } } } } }"@,
{
    "query character($id: Int) { Character(id: $id) { id name { first middle last full native userPreferred alternative alternativeSpoiler } image { large medium } description gender dateOfBirth { year month day } bloodType age favourites media { edges { characterRole node { id idMal title { romaji english native userPreferred } coverImage { extraLarge large medium color } averageScore startDate { year month day } episodes format status } } } } }"
}

/// The staff detail query.
pub fn anilist_staff_query() -> (r: &'static str)
    ensures
        r@ == "query staff($id: Int, $sort: [MediaSort], $characterPage: Int, $staffPage: Int, $onList: Boolean, $type: MediaType, $withCharacterRoles: Boolean = false, $withStaffRoles: Boolean = false) { Staff(id: $id) { id name { first middle last full native userPreferred alternative } image { large } description favourites isFavourite isFavouriteBlocked age gender yearsActive homeTown bloodType primaryOccupations dateOfBirth { year month day } dateOfDeath { year month day } language: languageV2 characterMedia(page: $characterPage, sort: $sort, onList: $onList) @include(if: $withCharacterRoles) { pageInfo { total perPage currentPage lastPage hasNextPage } edges { characterRole characterName node { id type bannerImage isAdult title { userPreferred } coverImage { large } startDate { year } mediaListEntry { id status } } characters { id name { userPreferred } image { large } } } } staffMedia(page: $staffPage, type: $type, sort: $sort, onList: $onList) @include(if: $withStaffRoles) { pageInfo { total perPage currentPage lastPage hasNextPage } edges { staffRole node { id type isAdult title { userPreferred } coverImage { large } mediaListEntry { id status } } } } } }"@,
{
    "query staff($id: Int, $sort: [MediaSort], $characterPage: Int, $staffPage: Int, $onList: Boolean, $type: MediaType, $withCharacterRoles: Boolean = false, $withStaffRoles: Boolean = false) { Staff(id: $id) { id name { first middle last full native userPreferred alternative } image { large } description favourites isFavourite isFavouriteBlocked age gender yearsActive homeTown bloodType primaryOccupations dateOfBirth { year month day } dateOfDeath { year month day } language: languageV2 characterMedia(page: $characterPage, sort: $sort, onList: $onList) @include(if: $withCharacterRoles) { pageInfo { total perPage currentPage lastPage hasNextPage } edges { characterRole characterName node { id type bannerImage isAdult title { userPreferred } coverImage { large } startDate { year } mediaListEntry { id status } } characters { id name { userPreferred } image { large } } } } staffMedia(page: $staffPage, type: $type, sort: $sort, onList: $onList) @include(if: $withStaffRoles) { pageInfo { total perPage currentPage lastPage hasNextPage } edges { staffRole node { id type isAdult title { userPreferred } coverImage { large } mediaListEntry { id status } } } } } }"
}

/// The search query for a title.
pub fn anilist_search_query(query: String, page: Option<u32>, per_page: Option<u32>, query_type: AnilistType) -> (r: String)
    ensures
        r@ == "query ($page: Int = "@ + strutil::dec_digits(spec_u32_or(page, 1)) + ", $id: Int, $type: MediaType = "@ + query_type.spec_name() + ", $search: String = '"@ + query@ + "', $isAdult: Boolean = false, $size: Int = "@ + strutil::dec_digits(spec_u32_or(per_page, 20)) + ") { Page(page: $page, perPage: $size) { pageInfo { total perPage currentPage lastPage hasNextPage } media(id: $id, type: $type, search: $search, isAdult: $isAdult) { id idMal status(version: 2) title { userPreferred romaji english native } bannerImage popularity coverImage{ extraLarge large medium color } episodes format season description seasonYear chapters volumes averageScore genres nextAiringEpisode { airingAt timeUntilAiring episode }  } } }"@,
{
    let page_str = strutil::usize_to_string(u32_or(page, 1) as usize);
    let per_page_str = strutil::usize_to_string(u32_or(per_page, 20) as usize);
    let qt_str = query_type.to_string();
    let mut r = "query ($page: Int = ".to_owned();
    r.append(page_str.as_str());
    r.append(", $id: Int, $type: MediaType = ");
    r.append(qt_str.as_str());
    r.append(", $search: String = '");
    r.append(query.as_str());
    r.append("', $isAdult: Boolean = false, $size: Int = ");
    r.append(per_page_str.as_str());
    r.append(") { Page(page: $page, perPage: $size) { pageInfo { total perPage currentPage lastPage hasNextPage } media(id: $id, type: $type, search: $search, isAdult: $isAdult) { id idMal status(version: 2) title { userPreferred romaji english native } bannerImage popularity coverImage{ extraLarge large medium color } episodes format season description seasonYear chapters volumes averageScore genres nextAiringEpisode { airingAt timeUntilAiring episode }  } } }");
    r
}

/// The media detail query for an id.
pub fn anilist_media_detail_query(id: String) -> (r: String)
    ensures
        r@ == "query ($id: Int = "@ + id@ + ") { Media(id: $id) { id idMal title { english native romaji } synonyms countryOfOrigin isLicensed isAdult externalLinks { url site type language } coverImage { extraLarge large color } startDate { year month day } endDate { year month day } bannerImage season seasonYear description type format status(version: 2) episodes duration chapters volumes trailer { id site thumbnail } genres source averageScore popularity meanScore nextAiringEpisode { airingAt timeUntilAiring episode } characters(sort: ROLE) { edges { role node { id name { first middle last full native userPreferred } image { large medium } } voiceActors(sort: LANGUAGE) { id languageV2 name { first middle last full native userPreferred } image { large medium } } } } recommendations { edges { node { id mediaRecommendation { id idMal title { romaji english native userPreferred } status episodes coverImage { extraLarge large medium color } bannerImage format chapters meanScore nextAiringEpisode { episode timeUntilAiring airingAt } } } } } relations { edges { id relationType node { id idMal status coverImage { extraLarge large medium color } bannerImage title { romaji english native userPreferred } episodes chapters format nextAiringEpisode { airingAt timeUntilAiring episode } meanScore } } } studios(isMain: true) { edges { isMain node { id name } } } } }"@,
{
    let mut r = "query ($id: Int = ".to_owned();
    r.append(id.as_str());
    r.append(") { Media(id: $id) { id idMal title { english native romaji } synonyms countryOfOrigin isLicensed isAdult externalLinks { url site type language } coverImage { extraLarge large color } startDate { year month day } endDate { year month day } bannerImage season seasonYear description type format status(version: 2) episodes duration chapters volumes trailer { id site thumbnail } genres source averageScore popularity meanScore nextAiringEpisode { airingAt timeUntilAiring episode } characters(sort: ROLE) { edges { role node { id name { first middle last full native userPreferred } image { large medium } } voiceActors(sort: LANGUAGE) { id languageV2 name { first middle last full native userPreferred } image { large medium } } } } recommendations { edges { node { id mediaRecommendation { id idMal title { romaji english native userPreferred } status episodes coverImage { extraLarge large medium color } bannerImage format chapters meanScore nextAiringEpisode { episode timeUntilAiring airingAt } } } } } relations { edges { id relationType node { id idMal status coverImage { extraLarge large medium color } bannerImage title { romaji english native userPreferred } episodes chapters format nextAiringEpisode { airingAt timeUntilAiring episode } meanScore } } } studios(isMain: true) { edges { isMain node { id name } } } } }");
    r
}

/// The trending listing query.
pub fn anilist_trending_query(page: Option<u32>, per_page: Option<u32>, query_type: AnilistType) -> (r: String)
    ensures
        r@ == "query ($page: Int = "@ + strutil::dec_digits(spec_u32_or(page, 1)) + ", $id: Int, $type: MediaType = "@ + query_type.spec_name() + ", $isAdult: Boolean = false, $size: Int = "@ + strutil::dec_digits(spec_u32_or(per_page, 20)) + ", $sort: [MediaSort] = [TRENDING_DESC, POPULARITY_DESC]) { Page(page: $page, perPage: $size) { pageInfo { total perPage currentPage lastPage hasNextPage } media(id: $id, type: $type, isAdult: $isAdult, sort: $sort) { id idMal status(version: 2) title { userPreferred romaji english native } genres trailer { id site thumbnail } description format bannerImage coverImage{ extraLarge large medium color } episodes meanScore duration season seasonYear averageScore nextAiringEpisode { airingAt timeUntilAiring episode }  } } }"@,
{
    let page_str = strutil::usize_to_string(u32_or(page, 1) as usize);
    let per_page_str = strutil::usize_to_string(u32_or(per_page, 20) as usize);
    let qt_str = query_type.to_string();
    let mut r = "query ($page: Int = ".to_owned();
    r.append(page_str.as_str());
    r.append(", $id: Int, $type: MediaType = ");
    r.append(qt_str.as_str());
    r.append(", $isAdult: Boolean = false, $size: Int = ");
    r.append(per_page_str.as_str());
    r.append(", $sort: [MediaSort] = [TRENDING_DESC, POPULARITY_DESC]) { Page(page: $page, perPage: $size) { pageInfo { total perPage currentPage lastPage hasNextPage } media(id: $id, type: $type, isAdult: $isAdult, sort: $sort) { id idMal status(version: 2) title { userPreferred romaji english native } genres trailer { id site thumbnail } description format bannerImage coverImage{ extraLarge large medium color } episodes meanScore duration season seasonYear averageScore nextAiringEpisode { airingAt timeUntilAiring episode }  } } }");
    r
}

/// The popularity listing query.
pub fn anilist_popular_query(page: Option<u32>, per_page: Option<u32>, query_type: AnilistType) -> (r: String)
    ensures
        r@ == "query ($page: Int = "@ + strutil::dec_digits(spec_u32_or(page, 1)) + ", $id: Int, $type: MediaType = "@ + query_type.spec_name() + ", $isAdult: Boolean = false, $size: Int = $"@ + strutil::dec_digits(spec_u32_or(per_page, 20)) + ", $sort: [MediaSort] = [POPULARITY_DESC]) { Page(page: $page, perPage: $size) { pageInfo { total perPage currentPage lastPage hasNextPage } media(id: $id, type: $type, isAdult: $isAdult, sort: $sort) { id idMal status(version: 2) title { userPreferred romaji english native } trailer { id site thumbnail } format genres bannerImage description coverImage { extraLarge large medium color } episodes meanScore duration season seasonYear averageScore nextAiringEpisode { airingAt timeUntilAiring episode }  } } }"@,
{
    let page_str = strutil::usize_to_string(u32_or(page, 1) as usize);
    let per_page_str = strutil::usize_to_string(u32_or(per_page, 20) as usize);
    let qt_str = query_type.to_string();
    let mut r = "query ($page: Int = ".to_owned();
    r.append(page_str.as_str());
    r.append(", $id: Int, $type: MediaType = ");
    r.append(qt_str.as_str());
    r.append(", $isAdult: Boolean = false, $size: Int = $");
    r.append(per_page_str.as_str());
    r.append(", $sort: [MediaSort] = [POPULARITY_DESC]) { Page(page: $page, perPage: $size) { pageInfo { total perPage currentPage lastPage hasNextPage } media(id: $id, type: $type, isAdult: $isAdult, sort: $sort) { id idMal status(version: 2) title { userPreferred romaji english native } trailer { id site thumbnail } format genres bannerImage description coverImage { extraLarge large medium color } episodes meanScore duration season seasonYear averageScore nextAiringEpisode { airingAt timeUntilAiring episode }  } } }");
    r
}

/// The genre-filtered listing query.
pub fn anilist_genres_query(genres: Vec<String>, page: Option<u32>, per_page: Option<u32>) -> (r: String)
    ensures
        r@ == "query ($genres: [String] = "@ + json_of_strings(genres.deep_view()) + ", $page: Int = $"@ + strutil::dec_digits(spec_u32_or(page, 1)) + ", $type: MediaType = ANIME, $isAdult: Boolean = false, $size: Int = $"@ + strutil::dec_digits(spec_u32_or(per_page, 20)) + ") {Page(page: $page, perPage: $size) { pageInfo { total perPage currentPage lastPage hasNextPage } media(type: $type, isAdult: $isAdult, genre_in: $genres) { id idMal status(version: 2) title { userPreferred romaji english native } trailer { id site thumbnail } format bannerImage description coverImage { extraLarge large medium color } episodes meanScore duration season seasonYear averageScore nextAiringEpisode { airingAt timeUntilAiring episode }  } } }"@,
{
    let genres_json = json_string_list(&genres);
    let page_str = strutil::usize_to_string(u32_or(page, 1) as usize);
    let per_page_str = strutil::usize_to_string(u32_or(per_page, 20) as usize);
    let mut r = "query ($genres: [String] = ".to_owned();
    r.append(genres_json.as_str());
    r.append(", $page: Int = $");
    r.append(page_str.as_str());
    r.append(", $type: MediaType = ANIME, $isAdult: Boolean = false, $size: Int = $");
    r.append(per_page_str.as_str());
    r.append(") {Page(page: $page, perPage: $size) { pageInfo { total perPage currentPage lastPage hasNextPage } media(type: $type, isAdult: $isAdult, genre_in: $genres) { id idMal status(version: 2) title { userPreferred romaji english native } trailer { id site thumbnail } format bannerImage description coverImage { extraLarge large medium color } episodes meanScore duration season seasonYear averageScore nextAiringEpisode { airingAt timeUntilAiring episode }  } } }");
    r
}

/// The airing schedule query for a week window.
pub fn anilist_airing_schedule_query(page: Option<u32>, per_page: Option<u32>, week_start: u32, week_end: u32, not_yet_aired: bool) -> (r: String)
    ensures
        r@ == "query { Page(page: $"@ + strutil::dec_digits(spec_u32_or(page, 1)) + ", perPage: $"@ + strutil::dec_digits(spec_u32_or(per_page, 20)) + ") { pageInfo { total perPage currentPage lastPage hasNextPage } airingSchedules( notYetAired: $"@ + spec_bool_str(not_yet_aired) + ", airingAt_greater: $"@ + strutil::dec_digits(week_start as int) + ", airingAt_lesser: $"@ + strutil::dec_digits(week_end as int) + ") { airingAt episode media { id description idMal title { romaji english userPreferred native } countryOfOrigin description popularity bannerImage coverImage { extraLarge large medium color } genres averageScore seasonYear format } } } }"@,
{
    let nya_str = bool_str(not_yet_aired);
    let page_str = strutil::usize_to_string(u32_or(page, 1) as usize);
    let per_page_str = strutil::usize_to_string(u32_or(per_page, 20) as usize);
    let we_str = strutil::usize_to_string(week_end as usize);
    let ws_str = strutil::usize_to_string(week_start as usize);
    let mut r = "query { Page(page: $".to_owned();
    r.append(page_str.as_str());
    r.append(", perPage: $");
    r.append(per_page_str.as_str());
    r.append(") { pageInfo { total perPage currentPage lastPage hasNextPage } airingSchedules( notYetAired: $");
    r.append(nya_str.as_str());
    r.append(", airingAt_greater: $");
    r.append(ws_str.as_str());
    r.append(", airingAt_lesser: $");
    r.append(we_str.as_str());
    r.append(") { airingAt episode media { id description idMal title { romaji english userPreferred native } countryOfOrigin description popularity bannerImage coverImage { extraLarge large medium color } genres averageScore seasonYear format } } } }");
    r
}

/// The kitsu title search query.
pub fn kitsu_search_query(query: String) -> (r: String)
    ensures
        r@ == "query{ searchAnimeByTitle(first:5, title:'"@ + query@ + "'){ nodes {id season startDate titles { localized } episodes(first: 2000){ nodes { number createdAt titles { canonical } description thumbnail { original { url } } } } } } }"@,
{
    let mut r = "query{ searchAnimeByTitle(first:5, title:'".to_owned();
    r.append(query.as_str());
    r.append("'){ nodes {id season startDate titles { localized } episodes(first: 2000){ nodes { number createdAt titles { canonical } description thumbnail { original { url } } } } } } }");
    r
}

} // verus!
