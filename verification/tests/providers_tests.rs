use consumet::models::types::StreamingServers;
use consumet::providers::dramacool::{DramaCool, DramaCoolServer};
use consumet::providers::flixhq::{FlixHQ, FlixHQServer};

#[test]
fn flixhq_urls_match_their_templates() {
    let p = FlixHQ;
    assert_eq!(
        p.search_url("Vincenzo the Drama", 2),
        "https://flixhq.to/search/Vincenzo-the-Drama?page=2"
    );
    assert_eq!(p.info_url("tv/watch-vincenzo-67955"), "https://flixhq.to/tv/watch-vincenzo-67955");
    assert_eq!(p.seasons_url("67955"), "https://flixhq.to/ajax/v2/tv/seasons/67955");
    assert_eq!(p.episodes_url("123"), "https://flixhq.to/ajax/v2/season/episodes/123");
    assert_eq!(p.get_link_url("998"), "https://flixhq.to/ajax/get_link/998");
}

#[test]
fn flixhq_episode_server_url_picks_the_endpoint() {
    let p = FlixHQ;
    assert_eq!(
        p.episode_server_url("1167571", "tv/watch-vincenzo-67955"),
        "https://flixhq.to/ajax/v2/episode/servers/1167571"
    );
    assert_eq!(
        p.episode_server_url("1167571", "movie/watch-something-1"),
        "https://flixhq.to/ajax/movie/episodes/1167571"
    );
}

#[test]
fn flixhq_id_helpers_take_tails() {
    let p = FlixHQ;
    assert_eq!(p.media_numeric_id("tv/watch-vincenzo-67955"), "67955");
    assert_eq!(p.server_id_from_url("https://host/link.4829"), "4829");
}

#[test]
fn flixhq_server_selection_defaults_to_first() {
    let p = FlixHQ;
    let servers = vec![
        FlixHQServer { name: "UpCloud".to_string(), url: "u.1".to_string() },
        FlixHQServer { name: "Vidcloud".to_string(), url: "v.2".to_string() },
        FlixHQServer { name: "MixDrop".to_string(), url: "m.3".to_string() },
    ];
    assert_eq!(p.find_server_index(&servers, StreamingServers::MixDrop), 2);
    assert_eq!(p.find_server_index(&servers, StreamingServers::UpCloud), 0);
    // an absent server falls back to the first entry
    assert_eq!(p.find_server_index(&servers, StreamingServers::StreamTape), 0);
}

#[test]
fn dramacool_urls_match_their_templates() {
    let p = DramaCool;
    assert_eq!(
        p.search_url("squid game", 1),
        "https://dramacool.com.pa/search?keyword=squid-game&page=1"
    );
    assert_eq!(p.info_url("drama-detail/x"), "https://dramacool.com.pa/drama-detail/x");
    assert_eq!(
        p.servers_url("/x-episode-1"),
        "https://dramacool.com.pa/x-episode-1.html"
    );
}

#[test]
fn dramacool_missing_server_is_an_explicit_miss() {
    let p = DramaCool;
    let servers = vec![
        DramaCoolServer { name: "asianload".to_string(), url: "a".to_string() },
        DramaCoolServer { name: "mixdrop".to_string(), url: "b".to_string() },
    ];
    assert_eq!(p.find_server_index(&servers, StreamingServers::MixDrop), Ok(1));
    assert_eq!(p.find_server_index(&servers, StreamingServers::AsianLoad), Ok(0));
    assert_eq!(
        p.find_server_index(&servers, StreamingServers::StreamTape),
        Err(consumet::error::ExtractorError::NotFound)
    );
}

#[test]
fn search_results_count_what_they_carry() {
    let p = DramaCool;
    let results = vec![];
    let page = p.build_search_results(3, true, 10, results);
    assert_eq!(page.current_page, 3);
    assert!(page.has_next_page);
    assert_eq!(page.total_pages, 10);
    assert_eq!(page.total_results, 0);
}
