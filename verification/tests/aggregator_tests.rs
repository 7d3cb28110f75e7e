use consumet::aggregator::{make_jobs, merge_outcomes};

#[test]
fn five_jobs_one_failure_yields_four_records() {
    // five fetches where the third answers with a server error: the
    // merged collection has four records and no failure escapes
    let outcomes: Vec<(usize, Option<String>)> = vec![
        (0, Some("body-0".to_string())),
        (1, Some("body-1".to_string())),
        (2, None),
        (3, Some("body-3".to_string())),
        (4, Some("body-4".to_string())),
    ];
    let merged = merge_outcomes(outcomes);
    assert_eq!(merged.len(), 4);
    let indices: Vec<usize> = merged.iter().map(|r| r.index).collect();
    assert_eq!(indices, vec![0, 1, 3, 4]);
}

#[test]
fn completion_order_is_kept_not_submission_order() {
    let outcomes: Vec<(usize, Option<String>)> = vec![
        (3, Some("d".to_string())),
        (0, Some("a".to_string())),
        (2, None),
        (1, Some("b".to_string())),
    ];
    let merged = merge_outcomes(outcomes);
    assert_eq!(merged.len(), 3);
    let indices: Vec<usize> = merged.iter().map(|r| r.index).collect();
    assert_eq!(indices, vec![3, 0, 1]);
    let mut sorted = indices.clone();
    sorted.sort();
    assert_eq!(sorted, vec![0, 1, 3]);
    assert_eq!(merged[0].body, "d");
}

#[test]
fn all_failures_yield_an_empty_collection() {
    let outcomes: Vec<(usize, Option<String>)> = vec![(0, None), (1, None)];
    assert_eq!(merge_outcomes(outcomes).len(), 0);
}

#[test]
fn jobs_carry_their_listing_index_and_url() {
    let ids = vec!["tv/watch-a-1".to_string(), "movie/watch-b-2".to_string()];
    let jobs = make_jobs("https://flixhq.to", &ids);
    assert_eq!(jobs.len(), 2);
    assert_eq!(jobs[0].index, 0);
    assert_eq!(jobs[0].url, "https://flixhq.to/tv/watch-a-1");
    assert_eq!(jobs[1].index, 1);
    assert_eq!(jobs[1].url, "https://flixhq.to/movie/watch-b-2");
}
