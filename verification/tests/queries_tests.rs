use consumet::queries::{
    anilist_advanced_query, anilist_airing_schedule_query, anilist_character_query,
    anilist_genres_query, anilist_media_detail_query, anilist_popular_query,
    anilist_search_query, anilist_site_statistics_query, anilist_staff_query,
    anilist_trending_query, kitsu_search_query, AnilistType,
};

#[test]
fn constant_queries_are_fixed_text() {
    assert!(anilist_advanced_query().starts_with("query ($page: Int, $id: Int"));
    assert_eq!(
        anilist_site_statistics_query(),
        "query { SiteStatistics { anime { nodes { count } } } }"
    );
    assert!(anilist_character_query().starts_with("query character($id: Int)"));
    assert!(anilist_staff_query().starts_with("query staff($id: Int"));
}

#[test]
fn search_query_splices_its_parameters() {
    let q = anilist_search_query("vincenzo".to_string(), Some(2), Some(5), AnilistType::Anime);
    let expected = format!(
        "query ($page: Int = {page}, $id: Int, $type: MediaType = {query_type}, $search: String = '{query}', $isAdult: Boolean = false, $size: Int = {per_page}) {{ Page(page: $page, perPage: $size) {{ pageInfo {{ total perPage currentPage lastPage hasNextPage }} media(id: $id, type: $type, search: $search, isAdult: $isAdult) {{ id idMal status(version: 2) title {{ userPreferred romaji english native }} bannerImage popularity coverImage{{ extraLarge large medium color }} episodes format season description seasonYear chapters volumes averageScore genres nextAiringEpisode {{ airingAt timeUntilAiring episode }}  }} }} }}",
        page = 2,
        query_type = "ANIME",
        query = "vincenzo",
        per_page = 5
    );
    assert_eq!(q, expected);
}

#[test]
fn search_query_defaults_page_and_size() {
    let q = anilist_search_query("x".to_string(), None, None, AnilistType::Manga);
    assert!(q.starts_with("query ($page: Int = 1, $id: Int, $type: MediaType = MANGA"));
    assert!(q.contains("$size: Int = 20)"));
}

#[test]
fn detail_query_carries_the_id() {
    let q = anilist_media_detail_query("4567".to_string());
    assert!(q.starts_with("query ($id: Int = 4567)"));
}

#[test]
fn listing_queries_carry_their_parameters() {
    let t = anilist_trending_query(Some(3), Some(7), AnilistType::Anime);
    assert!(t.starts_with("query ($page: Int = 3, $id: Int, $type: MediaType = ANIME"));
    assert!(t.contains("$size: Int = 7"));
    let p = anilist_popular_query(None, None, AnilistType::Manga);
    assert!(p.contains("$size: Int = $20"));
    let g = anilist_genres_query(vec!["Action".to_string(), "Sci-Fi".to_string()], None, None);
    assert!(g.contains("$genres: [String] = [\"Action\",\"Sci-Fi\"]"));
    let a = anilist_airing_schedule_query(Some(1), Some(25), 2, 5, true);
    assert!(a.contains("notYetAired: $true"));
    assert!(a.contains("airingAt_greater: $2"));
    assert!(a.contains("airingAt_lesser: $5"));
}

#[test]
fn kitsu_query_carries_the_title() {
    let q = kitsu_search_query("one piece".to_string());
    assert!(q.contains("searchAnimeByTitle(first:5, title:'one piece')"));
}
