use consumet::get_comics::parse_post_info;
use consumet::util_funcs::{convert_duration, get_day, get_days, parse_i32, Days, UtilFuncs};

#[test]
fn split_author_splits_on_separators() {
    assert_eq!(
        "author1, author2".split_author(),
        vec!["author1".to_string(), "author2".to_string()]
    );
    assert_eq!(
        "a; b,c".split_author(),
        vec!["a".to_string(), "b".to_string(), "c".to_string()]
    );
}

#[test]
fn floor_id_floors_to_thousands() {
    assert_eq!("123456".floor_id(), 123000);
    assert_eq!("999".floor_id(), 0);
    assert_eq!("notanumber12".floor_id(), 0);
}

#[test]
fn format_title_drops_digits_and_trims() {
    assert_eq!("Remy Clarke123 The Movie   ".format_title(), "Remy Clarke The Movie");
}

#[test]
fn capitalize_first_letter_uppercases_only_the_first() {
    assert_eq!("remy Clarke".capitalize_first_letter(), "Remy Clarke");
    assert_eq!("".capitalize_first_letter(), "");
}

#[test]
fn substring_helpers_split_at_occurrences() {
    assert_eq!("remy Clarke".substring_before("Clarke"), Ok("remy ".to_string()));
    assert_eq!("remy Clarke".substring_after("remy"), Ok(" Clarke".to_string()));
    assert_eq!(
        "remy Clarke remy".substring_before_last("remy"),
        Ok("remy Clarke ".to_string())
    );
    assert_eq!(
        "remy Clarke remy Clarke".substring_after_last("remy"),
        Ok(" Clarke".to_string())
    );
    assert_eq!(
        "abc".substring_before("zz"),
        Err("to_find=(zz)".to_string())
    );
}

#[test]
fn convert_duration_renders_the_time_of_day() {
    assert_eq!(convert_duration(23409823), "PT00H36M40S");
    assert_eq!(convert_duration(0), "PT00H00M00S");
}

#[test]
fn parse_i32_succeeds_exactly_in_range() {
    assert_eq!(parse_i32("2147483647"), Some(2147483647));
    assert_eq!(parse_i32("2147483648"), None);
    assert_eq!(parse_i32("-2147483648"), Some(i32::MIN));
    assert_eq!(parse_i32("-2147483649"), None);
    assert_eq!(parse_i32("+7"), Some(7));
    assert_eq!(parse_i32(""), None);
    assert_eq!(parse_i32("12a"), None);
    assert_eq!(parse_i32("-"), None);
}

#[test]
fn day_timestamps_come_one_per_day() {
    let days = get_days(vec![Days::Sunday, Days::Saturday]);
    assert_eq!(days.len(), 2);
    let single = get_day(Days::Monday);
    // at most a week ahead of any timestamp of the batch
    assert!(days.iter().all(|d| (single - d).abs() <= 7 * 86400 + 5));
}

#[test]
fn post_info_scans_year_size_and_description() {
    let post = "Year : 2023 Size : 700 MB a fine comic for all people here";
    let info = parse_post_info(post);
    assert_eq!(info.year, "2023");
    assert_eq!(info.size, "700 M");
    assert_eq!(info.description, "B a fine comic for all");
}
