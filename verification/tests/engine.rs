//! Tests of the extraction core over plain-value models, and of the text
//! helpers and outcome derivation.

use overgg_scraper::data_structs::{
    EventInfo, MatchBriefInfo, TeamCompletedMatchBriefInfo,
};
use overgg_scraper::data_structs::MatchBriefType::{Completed, InFuture, Live};
use overgg_scraper::engine::{
    extract_livestreams, extract_matches, RawCard, RawContainer, RawMatchEntry, RawStream, RawTeam,
};
use overgg_scraper::text::{parse_i64, parse_u32, parse_u8, trimmed};

fn team(name: &str, score: Option<&str>) -> RawTeam {
    RawTeam {
        name_text: Some(String::from(name)),
        score_text: score.map(String::from),
    }
}

fn entry(live: bool, name: &str, series: &str, teams: Vec<RawTeam>, ts: Option<&str>) -> RawMatchEntry {
    RawMatchEntry {
        has_live_marker: live,
        event_name_text: Some(String::from(name)),
        event_series_text: Some(String::from(series)),
        teams,
        scheduled_ts_text: ts.map(String::from),
    }
}

#[test]
fn completed_container_scenario() {
    let containers = vec![RawContainer {
        header_text: Some(String::from("completed matches")),
        entries: vec![entry(
            false,
            "Grand Tournament",
            "Finals",
            vec![team("A", Some("3")), team("B", Some("1"))],
            Some("1431648000"),
        )],
    }];
    let records = extract_matches(&containers, Completed).unwrap();
    assert_eq!(records.len(), 1);
    assert_eq!(records[0].teams[0].maps_won, Some(3));
    assert_eq!(records[0].teams[1].maps_won, Some(1));
    assert_eq!(records[0].winner().unwrap().name, "A");
    assert_eq!(records[0].loser().unwrap().name, "B");
    assert_eq!(records[0].scheduled_time, Some(1431648000));
}

#[test]
fn zero_score_is_distinct_from_absent_score() {
    let containers = vec![RawContainer {
        header_text: Some(String::from("completed matches")),
        entries: vec![entry(
            false,
            "Grand Tournament",
            "Finals",
            vec![team("A", Some("0")), team("B", None)],
            None,
        )],
    }];
    let records = extract_matches(&containers, Completed).unwrap();
    assert_eq!(records[0].teams[0].maps_won, Some(0));
    assert_eq!(records[0].teams[1].maps_won, None);
}

#[test]
fn missing_team_slots_keep_defaults() {
    let containers = vec![RawContainer {
        header_text: Some(String::from("completed matches")),
        entries: vec![entry(false, "Grand Tournament", "Finals", vec![team("A", Some("2"))], None)],
    }];
    let records = extract_matches(&containers, Completed).unwrap();
    assert_eq!(records[0].teams[0].name, "A");
    assert_eq!(records[0].teams[1].name, "");
    assert_eq!(records[0].teams[1].maps_won, None);
}

#[test]
fn live_filter_keeps_only_marked_entries() {
    let containers = vec![RawContainer {
        header_text: Some(String::from("upcoming matches")),
        entries: vec![
            entry(true, "Open Cup", "Groups", vec![team("E", Some("1")), team("F", Some("1"))], None),
            entry(false, "Open Cup", "Playoffs", vec![team("G", None), team("H", None)], None),
        ],
    }];
    let live = extract_matches(&containers, Live).unwrap();
    assert_eq!(live.len(), 1);
    assert_eq!(live[0].teams[0].name, "E");
    let future = extract_matches(&containers, InFuture).unwrap();
    assert_eq!(future.len(), 1);
    assert_eq!(future[0].teams[0].name, "G");
}

#[test]
fn header_missing_on_a_container_is_fatal() {
    let containers = vec![
        RawContainer { header_text: None, entries: vec![] },
        RawContainer { header_text: Some(String::from("completed matches")), entries: vec![] },
    ];
    let r = extract_matches(&containers, Completed);
    assert_eq!(r.unwrap_err().requested, Completed);
}

#[test]
fn non_matching_containers_are_skipped_not_fatal() {
    let containers = vec![
        RawContainer { header_text: Some(String::from("upcoming matches")), entries: vec![] },
        RawContainer {
            header_text: Some(String::from("completed matches")),
            entries: vec![entry(false, "E", "S", vec![], None)],
        },
    ];
    let records = extract_matches(&containers, Completed).unwrap();
    assert_eq!(records.len(), 1);
    assert_eq!(records[0].event.name, "E");
}

#[test]
fn no_matching_header_is_an_error() {
    let containers = vec![RawContainer {
        header_text: Some(String::from("upcoming matches")),
        entries: vec![],
    }];
    let r = extract_matches(&containers, Completed);
    assert_eq!(r.unwrap_err().requested, Completed);
}

#[test]
fn stream_buckets_partition_by_flag() {
    let cards = vec![RawCard {
        header_text: Some(String::from("Live Streams")),
        streams: vec![
            RawStream {
                name_text: Some(String::from("One")),
                title_attr: Some(String::from("first")),
                viewer_text: Some(String::from("1500")),
                href_attr: Some(String::from("https://example.com/1")),
                has_flag: true,
            },
            RawStream {
                name_text: Some(String::from("Two")),
                title_attr: None,
                viewer_text: Some(String::from("many")),
                href_attr: None,
                has_flag: false,
            },
        ],
    }];
    let streams = extract_livestreams(&cards);
    assert_eq!(streams.curated.len(), 1);
    assert_eq!(streams.curated[0].name, "One");
    assert_eq!(streams.curated[0].title, Some(String::from("first")));
    assert_eq!(streams.curated[0].viewer_count, Some(1500));
    assert_eq!(streams.other_top.len(), 1);
    assert_eq!(streams.other_top[0].name, "Two");
    assert_eq!(streams.other_top[0].title, None);
    assert_eq!(streams.other_top[0].viewer_count, None);
    assert_eq!(streams.other_top[0].url, "");
}

#[test]
fn winner_and_loser_are_none_on_tie_or_absence() {
    let tie = MatchBriefInfo {
        event: EventInfo::default(),
        teams: [
            TeamCompletedMatchBriefInfo { name: String::from("A"), maps_won: Some(2) },
            TeamCompletedMatchBriefInfo { name: String::from("B"), maps_won: Some(2) },
        ],
        scheduled_time: None,
    };
    assert!(tie.winner().is_none());
    assert!(tie.loser().is_none());

    let half_known = MatchBriefInfo {
        event: EventInfo::default(),
        teams: [
            TeamCompletedMatchBriefInfo { name: String::from("A"), maps_won: Some(2) },
            TeamCompletedMatchBriefInfo { name: String::from("B"), maps_won: None },
        ],
        scheduled_time: None,
    };
    assert!(half_known.winner().is_none());
    assert!(half_known.loser().is_none());

    let unknown = MatchBriefInfo::default();
    assert!(unknown.winner().is_none());
    assert!(unknown.loser().is_none());
}

#[test]
fn winner_mirrors_loser() {
    let m = MatchBriefInfo {
        event: EventInfo::default(),
        teams: [
            TeamCompletedMatchBriefInfo { name: String::from("A"), maps_won: Some(1) },
            TeamCompletedMatchBriefInfo { name: String::from("B"), maps_won: Some(2) },
        ],
        scheduled_time: None,
    };
    assert_eq!(m.winner().unwrap().name, "B");
    assert_eq!(m.loser().unwrap().name, "A");
}

#[test]
fn parse_u8_follows_integer_grammar() {
    assert_eq!(parse_u8("0"), Some(0));
    assert_eq!(parse_u8("255"), Some(255));
    assert_eq!(parse_u8("007"), Some(7));
    assert_eq!(parse_u8("+3"), Some(3));
    assert_eq!(parse_u8("256"), None);
    assert_eq!(parse_u8(""), None);
    assert_eq!(parse_u8("+"), None);
    assert_eq!(parse_u8("-1"), None);
    assert_eq!(parse_u8("TBD"), None);
    assert_eq!(parse_u8("3 "), None);
    assert_eq!(parse_u8("00000000000000000000000000000255"), Some(255));
    assert_eq!(parse_u8("00000000000000000000000000000256"), None);
}

#[test]
fn parse_u32_follows_integer_grammar() {
    assert_eq!(parse_u32("4294967295"), Some(4294967295));
    assert_eq!(parse_u32("4294967296"), None);
    assert_eq!(parse_u32("1500"), Some(1500));
    assert_eq!(parse_u32("many"), None);
}

#[test]
fn parse_i64_follows_integer_grammar() {
    assert_eq!(parse_i64("1431648000"), Some(1431648000));
    assert_eq!(parse_i64("-1431648000"), Some(-1431648000));
    assert_eq!(parse_i64("+12"), Some(12));
    assert_eq!(parse_i64("9223372036854775807"), Some(i64::MAX));
    assert_eq!(parse_i64("9223372036854775808"), None);
    assert_eq!(parse_i64("-9223372036854775808"), Some(i64::MIN));
    assert_eq!(parse_i64("-9223372036854775809"), None);
    assert_eq!(parse_i64("-"), None);
    assert_eq!(parse_i64("12a"), None);
}

#[test]
fn trimmed_removes_surrounding_whitespace_only() {
    assert_eq!(trimmed("  completed matches \n"), "completed matches");
    assert_eq!(trimmed("a b"), "a b");
    assert_eq!(trimmed("   "), "");
    assert_eq!(trimmed(""), "");
    assert_eq!(trimmed("\u{a0}x\u{a0}"), "x");
}

#[test]
fn records_are_structurally_comparable() {
    let a = MatchBriefInfo::default();
    let b = MatchBriefInfo::default();
    assert!(a == b);
    let c = MatchBriefInfo {
        event: EventInfo { name: String::from("E"), series: String::new() },
        teams: [
            TeamCompletedMatchBriefInfo::default(),
            TeamCompletedMatchBriefInfo::default(),
        ],
        scheduled_time: None,
    };
    assert!(a != c);
}

#[test]
fn labels_follow_the_page_headers() {
    assert_eq!(Completed.label(), "completed matches");
    assert_eq!(InFuture.label(), "upcoming matches");
    assert_eq!(Live.label(), "upcoming matches");
}
