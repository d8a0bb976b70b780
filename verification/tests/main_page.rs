//! Tests of the main-page scraper over fixture documents.

use overgg_scraper::data_structs::MatchBriefType::{Completed, InFuture, Live};
use overgg_scraper::error::ConfigError;
use overgg_scraper::scrapers::main_page::MainPageScraper;

fn match_config() -> Vec<(String, String)> {
    vec![
        (String::from("matches"), String::from(".match-list")),
        (String::from("header"), String::from(".ml-header")),
        (String::from("match"), String::from(".ml-entry")),
        (String::from("live"), String::from(".live-marker")),
        (String::from("event_name"), String::from(".event-name")),
        (String::from("event_series"), String::from(".event-series")),
        (String::from("teams"), String::from(".team")),
        (String::from("team_name"), String::from(".team-name")),
        (String::from("team_score"), String::from(".team-score")),
        (String::from("match_scheduled_time"), String::from(".sched")),
    ]
}

fn stream_config() -> Vec<(String, String)> {
    vec![
        (String::from("cards"), String::from(".card")),
        (String::from("header"), String::from(".card-header")),
        (String::from("stream"), String::from(".stream-entry")),
        (String::from("stream_name"), String::from(".stream-name")),
        (String::from("stream_viewer_count"), String::from(".stream-viewers")),
        (String::from("flag"), String::from(".flag")),
    ]
}

fn main_page_html() -> String {
    String::from(
        r#"<html><body>
        <div class="match-list">
          <div class="ml-header"> completed matches </div>
          <div class="ml-entry">
            <div class="event-name">Grand Tournament</div>
            <div class="event-series">Finals</div>
            <div class="team"><span class="team-name">A</span><span class="team-score">3</span></div>
            <div class="team"><span class="team-name">B</span><span class="team-score">1</span></div>
            <div class="sched" data-utc-ts="1431648000"></div>
          </div>
          <div class="ml-entry">
            <div class="event-name">Grand Tournament</div>
            <div class="event-series">Semifinals</div>
            <div class="team"><span class="team-name">C</span><span class="team-score">2</span></div>
            <div class="team"><span class="team-name">D</span><span class="team-score">0</span></div>
          </div>
        </div>
        <div class="match-list">
          <div class="ml-header"> upcoming matches </div>
          <div class="ml-entry">
            <span class="live-marker"></span>
            <div class="event-name">Open Cup</div>
            <div class="event-series">Group Stage</div>
            <div class="team"><span class="team-name">E</span><span class="team-score">1</span></div>
            <div class="team"><span class="team-name">F</span><span class="team-score">1</span></div>
          </div>
          <div class="ml-entry">
            <div class="event-name">Open Cup</div>
            <div class="event-series">Playoffs</div>
            <div class="team"><span class="team-name">G</span></div>
            <div class="team"><span class="team-name">H</span></div>
            <div class="sched" data-utc-ts="1531648000"></div>
          </div>
        </div>
        <div class="card">
          <div class="card-header">Some Other Card</div>
          <a class="stream-entry" href="https://example.com/x">
            <span class="stream-name">NotAStream</span>
          </a>
        </div>
        <div class="card">
          <div class="card-header"> Live Streams </div>
          <a class="stream-entry" title="First curated" href="https://example.com/1">
            <span class="stream-name">StreamerOne</span>
            <span class="stream-viewers">1500</span>
            <span class="flag"></span>
          </a>
          <a class="stream-entry" title="Second top" href="https://example.com/2">
            <span class="stream-name">StreamerTwo</span>
            <span class="stream-viewers">900</span>
          </a>
          <a class="stream-entry" title="Third curated" href="https://example.com/3">
            <span class="stream-name">StreamerThree</span>
            <span class="stream-viewers">betrayal</span>
            <span class="flag"></span>
          </a>
        </div>
        </body></html>"#,
    )
}

fn scraper() -> MainPageScraper {
    MainPageScraper::new(&main_page_html(), &match_config(), &stream_config()).unwrap()
}

#[test]
fn main_page_completed_matches_brief() {
    let scraper = scraper();
    let matches = scraper.matches_brief(Completed).unwrap();
    assert_eq!(matches.len(), 2);

    for _match in matches {
        // Make sure we got distinct event info
        assert!(_match.event.name != "");
        assert!(_match.event.series != "");
        assert!(_match.event.name != _match.event.series);

        // Make sure we got a value for maps won
        assert!(!_match.teams[0].maps_won.is_none());
        assert!(!_match.teams[1].maps_won.is_none());

        // Make sure we got distinct team names
        assert!(_match.teams[0].name != "");
        assert!(_match.teams[1].name != "");
        assert!(_match.teams[0].name != _match.teams[1].name);

        // Make sure that the methods to determine winner / loser work correctly
        if let (Some(winner), Some(loser)) = (_match.winner(), _match.loser()) {
            assert!(winner != loser);
            assert!(winner.maps_won > loser.maps_won);
        }
    }
}

#[test]
fn main_page_future_matches_brief() {
    let scraper = scraper();
    let matches = scraper.matches_brief(InFuture).unwrap();
    assert_eq!(matches.len(), 1);

    for _match in matches {
        // Make sure we got distinct event info
        assert!(_match.event.name != "");
        assert!(_match.event.series != "");
        assert!(_match.event.name != _match.event.series);

        // Make sure we didn't get a value for maps won
        assert!(_match.teams[0].maps_won.is_none());
        assert!(_match.teams[1].maps_won.is_none());

        // Make sure we got non-empty team names
        assert!(_match.teams[0].name != "");
        assert!(_match.teams[1].name != "");

        // Make sure that the methods to determine winner / loser work correctly
        assert!(_match.winner().is_none());
        assert!(_match.loser().is_none());
    }
}

#[test]
fn main_page_live_matches_brief() {
    let scraper = scraper();
    let matches = scraper.matches_brief(Live).unwrap();
    assert_eq!(matches.len(), 1);

    for _match in matches {
        // Make sure we got distinct event info
        assert!(_match.event.name != "");
        assert!(_match.event.series != "");
        assert!(_match.event.name != _match.event.series);

        // Make sure we got a value for maps won
        assert!(!_match.teams[0].maps_won.is_none());
        assert!(!_match.teams[1].maps_won.is_none());

        // Make sure we got distinct team names
        assert!(_match.teams[0].name != "");
        assert!(_match.teams[1].name != "");
        assert!(_match.teams[0].name != _match.teams[1].name);
    }
}

#[test]
fn main_page_live_streams() {
    let scraper = scraper();
    let streams = scraper.live_streams();

    for stream in streams.curated.iter().chain(streams.other_top.iter()) {
        // Make sure we got a name
        assert!(stream.name != "");
    }
}

#[test]
fn completed_scenario_exact_fields() {
    let scraper = scraper();
    let matches = scraper.matches_brief(Completed).unwrap();

    let first = &matches[0];
    assert_eq!(first.event.name, "Grand Tournament");
    assert_eq!(first.event.series, "Finals");
    assert_eq!(first.teams[0].name, "A");
    assert_eq!(first.teams[0].maps_won, Some(3));
    assert_eq!(first.teams[1].name, "B");
    assert_eq!(first.teams[1].maps_won, Some(1));
    assert_eq!(first.scheduled_time, Some(1431648000));
    assert_eq!(first.winner().unwrap().name, "A");
    assert_eq!(first.loser().unwrap().name, "B");

    let second = &matches[1];
    assert_eq!(second.teams[1].maps_won, Some(0));
    assert_eq!(second.scheduled_time, None);
}

#[test]
fn unparsable_score_yields_none_without_error() {
    let html = String::from(
        r#"<div class="match-list">
          <div class="ml-header">completed matches</div>
          <div class="ml-entry">
            <div class="event-name">Grand Tournament</div>
            <div class="event-series">Finals</div>
            <div class="team"><span class="team-name">A</span><span class="team-score">TBD</span></div>
            <div class="team"><span class="team-name">B</span><span class="team-score">2</span></div>
          </div>
        </div>"#,
    );
    let scraper = MainPageScraper::new(&html, &match_config(), &stream_config()).unwrap();
    let matches = scraper.matches_brief(Completed).unwrap();
    assert_eq!(matches.len(), 1);
    assert_eq!(matches[0].teams[0].maps_won, None);
    assert_eq!(matches[0].teams[0].name, "A");
    assert_eq!(matches[0].teams[1].maps_won, Some(2));
    assert_eq!(matches[0].event.name, "Grand Tournament");
    assert!(matches[0].winner().is_none());
}

#[test]
fn live_and_future_results_are_disjoint() {
    let scraper = scraper();
    let live = scraper.matches_brief(Live).unwrap();
    let future = scraper.matches_brief(InFuture).unwrap();
    for l in live.iter() {
        for f in future.iter() {
            assert!(l != f);
        }
    }
}

#[test]
fn extraction_is_idempotent() {
    let scraper = scraper();
    let first = scraper.matches_brief(Completed).unwrap();
    let second = scraper.matches_brief(Completed).unwrap();
    assert!(first == second);

    let streams_first = scraper.live_streams();
    let streams_second = scraper.live_streams();
    assert!(streams_first == streams_second);
}

#[test]
fn livestream_buckets_follow_flag_and_document_order() {
    let scraper = scraper();
    let streams = scraper.live_streams();

    assert_eq!(streams.curated.len(), 2);
    assert_eq!(streams.curated[0].name, "StreamerOne");
    assert_eq!(streams.curated[0].title, Some(String::from("First curated")));
    assert_eq!(streams.curated[0].viewer_count, Some(1500));
    assert_eq!(streams.curated[0].url, "https://example.com/1");
    assert_eq!(streams.curated[1].name, "StreamerThree");
    assert_eq!(streams.curated[1].viewer_count, None);

    assert_eq!(streams.other_top.len(), 1);
    assert_eq!(streams.other_top[0].name, "StreamerTwo");
    assert_eq!(streams.other_top[0].title, Some(String::from("Second top")));
    assert_eq!(streams.other_top[0].viewer_count, Some(900));
    assert_eq!(streams.other_top[0].url, "https://example.com/2");
}

#[test]
fn missing_header_label_is_an_error_not_an_empty_list() {
    let html = String::from(
        r#"<div class="match-list">
          <div class="ml-header">upcoming matches</div>
          <div class="ml-entry">
            <div class="team"><span class="team-name">G</span></div>
            <div class="team"><span class="team-name">H</span></div>
          </div>
        </div>"#,
    );
    let scraper = MainPageScraper::new(&html, &match_config(), &stream_config()).unwrap();
    let result = scraper.matches_brief(Completed);
    assert!(result.is_err());
    assert_eq!(result.unwrap_err().requested, Completed);
}

#[test]
fn missing_livestream_card_yields_empty_buckets() {
    let html = String::from(r#"<div class="card"><div class="card-header">Something</div></div>"#);
    let scraper = MainPageScraper::new(&html, &match_config(), &stream_config()).unwrap();
    let streams = scraper.live_streams();
    assert!(streams.curated.is_empty());
    assert!(streams.other_top.is_empty());
}

#[test]
fn missing_selector_key_is_a_config_error() {
    let mut config = match_config();
    config.retain(|p| p.0 != "team_score");
    let r = MainPageScraper::new(&main_page_html(), &config, &stream_config());
    assert!(matches!(r, Err(ConfigError::MissingKey(ref k)) if k == "team_score"));
}

#[test]
fn malformed_selector_pattern_is_a_config_error() {
    let mut config = stream_config();
    for p in config.iter_mut() {
        if p.0 == "flag" {
            p.1 = String::from("<<not-a-selector>>");
        }
    }
    let r = MainPageScraper::new(&main_page_html(), &match_config(), &config);
    assert!(matches!(r, Err(ConfigError::BadSelector(ref k)) if k == "flag"));
}

#[test]
fn out_of_range_timestamp_is_dropped() {
    let html = String::from(
        r#"<div class="match-list">
          <div class="ml-header">completed matches</div>
          <div class="ml-entry">
            <div class="team"><span class="team-name">A</span><span class="team-score">1</span></div>
            <div class="team"><span class="team-name">B</span><span class="team-score">0</span></div>
            <div class="sched" data-utc-ts="9223372036854775807"></div>
          </div>
        </div>"#,
    );
    let scraper = MainPageScraper::new(&html, &match_config(), &stream_config()).unwrap();
    let matches = scraper.matches_brief(Completed).unwrap();
    assert_eq!(matches.len(), 1);
    assert_eq!(matches[0].scheduled_time, None);
}
