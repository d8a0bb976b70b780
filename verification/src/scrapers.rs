//! The selector registry, and the page scrapers built on it.
//!
//! A registry is built from a small human-edited configuration: pairs of
//! logical role name and CSS selector pattern.  Every pattern is compiled
//! eagerly, so a missing role or a malformed pattern is a fatal
//! configuration error at load time, never a surprise mid-extraction.

pub mod main_page;

use vstd::prelude::*;
use crate::dom::{compile_selector, selector_compiles};
use crate::engine::view_of_opt_string;
use crate::error::ConfigError;

verus! {

pub open spec fn views_of_pairs(pairs: Seq<(String, String)>) -> Seq<(Seq<char>, Seq<char>)> {
    pairs.map_values(|p: (String, String)| (p.0@, p.1@))
}

/// The pattern configured for a role: the value of the first pair whose key
/// matches.
pub open spec fn lookup_pair(pairs: Seq<(Seq<char>, Seq<char>)>, key: Seq<char>) -> Option<
    Seq<char>,
>
    decreases pairs.len(),
{
    if pairs.len() == 0 {
        None
    } else if pairs[0].0 == key {
        Some(pairs[0].1)
    } else {
        lookup_pair(pairs.drop_first(), key)
    }
}

/// A role is usable when it is configured and its pattern compiles.
pub open spec fn role_ok(pairs: Seq<(Seq<char>, Seq<char>)>, key: Seq<char>) -> bool {
    match lookup_pair(pairs, key) {
        Some(pattern) => selector_compiles(pattern),
        None => false,
    }
}

/// The value of the first pair whose key matches, as executable code.
fn lookup(pairs: &Vec<(String, String)>, key: &String) -> (r: Option<String>)
    ensures
        view_of_opt_string(r) == lookup_pair(views_of_pairs(pairs@), key@),
{
    let ghost pvs = views_of_pairs(pairs@);
    proof {
        assert(pvs.skip(0) =~= pvs);
    }
    let mut i: usize = 0;
    while i < pairs.len()
        invariant
            0 <= i <= pairs.len(),
            pvs == views_of_pairs(pairs@),
            pvs.len() == pairs.len(),
            lookup_pair(pvs, key@) == lookup_pair(pvs.skip(i as int), key@),
        decreases pairs.len() - i,
    {
        let p = &pairs[i];
        proof {
            assert(pvs[i as int] == (pairs@[i as int].0@, pairs@[i as int].1@));
            assert(pvs.skip(i as int)[0] == pvs[i as int]);
            assert(pvs.skip(i as int).drop_first() =~= pvs.skip(i as int + 1));
        }
        if p.0 == *key {
            return Some(p.1.clone());
        }
        i = i + 1;
    }
    proof {
        assert(pvs.skip(pairs@.len() as int) =~= Seq::<(Seq<char>, Seq<char>)>::empty());
    }
    None
}

/// Looks the role up and compiles its pattern: the compiled selector, or the
/// configuration error naming the role.
fn role_selector(pairs: &Vec<(String, String)>, key: &str) -> (r: Result<
    scraper::Selector,
    ConfigError,
>)
    ensures
        r is Ok <==> role_ok(views_of_pairs(pairs@), key@),
        match r {
            Ok(_) => true,
            Err(ConfigError::MissingKey(k)) => k@ == key@ && lookup_pair(
                views_of_pairs(pairs@),
                key@,
            ) is None,
            Err(ConfigError::BadSelector(k)) => k@ == key@ && ({
                let l = lookup_pair(views_of_pairs(pairs@), key@);
                l is Some && !selector_compiles(l.unwrap())
            }),
        },
{
    let k = key.to_owned();
    match lookup(pairs, &k) {
        Some(pattern) => match compile_selector(pattern.as_str()) {
            Some(sel) => Ok(sel),
            None => Err(ConfigError::BadSelector(k)),
        },
        None => Err(ConfigError::MissingKey(k)),
    }
}

/// The compiled selectors the match extraction engine queries with, one per
/// logical role of its configuration.
pub struct MatchSelectors {
    pub(crate) containers: scraper::Selector,
    pub(crate) header: scraper::Selector,
    pub(crate) entry: scraper::Selector,
    pub(crate) live: scraper::Selector,
    pub(crate) event_name: scraper::Selector,
    pub(crate) event_series: scraper::Selector,
    pub(crate) teams: scraper::Selector,
    pub(crate) team_name: scraper::Selector,
    pub(crate) team_score: scraper::Selector,
    pub(crate) scheduled_time: scraper::Selector,
}

/// Every role of the match extraction configuration is present and
/// compiles.
pub open spec fn match_config_ok(pairs: Seq<(Seq<char>, Seq<char>)>) -> bool {
    &&& role_ok(pairs, "matches"@)
    &&& role_ok(pairs, "header"@)
    &&& role_ok(pairs, "match"@)
    &&& role_ok(pairs, "live"@)
    &&& role_ok(pairs, "event_name"@)
    &&& role_ok(pairs, "event_series"@)
    &&& role_ok(pairs, "teams"@)
    &&& role_ok(pairs, "team_name"@)
    &&& role_ok(pairs, "team_score"@)
    &&& role_ok(pairs, "match_scheduled_time"@)
}

impl MatchSelectors {
    /// Compiles the match extraction selector set from configuration pairs.
    /// Succeeds exactly when every required role is configured with a
    /// pattern that compiles; the error names the first role that is not.
    pub fn from_config(pairs: &Vec<(String, String)>) -> (r: Result<MatchSelectors, ConfigError>)
        ensures
            r is Ok <==> match_config_ok(views_of_pairs(pairs@)),
    {
        let containers = match role_selector(pairs, "matches") {
            Ok(s) => s,
            Err(e) => { return Err(e); },
        };
        let header = match role_selector(pairs, "header") {
            Ok(s) => s,
            Err(e) => { return Err(e); },
        };
        let entry = match role_selector(pairs, "match") {
            Ok(s) => s,
            Err(e) => { return Err(e); },
        };
        let live = match role_selector(pairs, "live") {
            Ok(s) => s,
            Err(e) => { return Err(e); },
        };
        let event_name = match role_selector(pairs, "event_name") {
            Ok(s) => s,
            Err(e) => { return Err(e); },
        };
        let event_series = match role_selector(pairs, "event_series") {
            Ok(s) => s,
            Err(e) => { return Err(e); },
        };
        let teams = match role_selector(pairs, "teams") {
            Ok(s) => s,
            Err(e) => { return Err(e); },
        };
        let team_name = match role_selector(pairs, "team_name") {
            Ok(s) => s,
            Err(e) => { return Err(e); },
        };
        let team_score = match role_selector(pairs, "team_score") {
            Ok(s) => s,
            Err(e) => { return Err(e); },
        };
        let scheduled_time = match role_selector(pairs, "match_scheduled_time") {
            Ok(s) => s,
            Err(e) => { return Err(e); },
        };
        Ok(
            MatchSelectors {
                containers,
                header,
                entry,
                live,
                event_name,
                event_series,
                teams,
                team_name,
                team_score,
                scheduled_time,
            },
        )
    }
}

/// The compiled selectors the livestream extraction engine queries with.
pub struct StreamSelectors {
    pub(crate) cards: scraper::Selector,
    pub(crate) header: scraper::Selector,
    pub(crate) stream: scraper::Selector,
    pub(crate) stream_name: scraper::Selector,
    pub(crate) stream_viewer_count: scraper::Selector,
    pub(crate) flag: scraper::Selector,
}

/// Every role of the livestream extraction configuration is present and
/// compiles.
pub open spec fn stream_config_ok(pairs: Seq<(Seq<char>, Seq<char>)>) -> bool {
    &&& role_ok(pairs, "cards"@)
    &&& role_ok(pairs, "header"@)
    &&& role_ok(pairs, "stream"@)
    &&& role_ok(pairs, "stream_name"@)
    &&& role_ok(pairs, "stream_viewer_count"@)
    &&& role_ok(pairs, "flag"@)
}

impl StreamSelectors {
    /// Compiles the livestream extraction selector set from configuration
    /// pairs, under the policy of [`MatchSelectors::from_config`].
    pub fn from_config(pairs: &Vec<(String, String)>) -> (r: Result<StreamSelectors, ConfigError>)
        ensures
            r is Ok <==> stream_config_ok(views_of_pairs(pairs@)),
    {
        let cards = match role_selector(pairs, "cards") {
            Ok(s) => s,
            Err(e) => { return Err(e); },
        };
        let header = match role_selector(pairs, "header") {
            Ok(s) => s,
            Err(e) => { return Err(e); },
        };
        let stream = match role_selector(pairs, "stream") {
            Ok(s) => s,
            Err(e) => { return Err(e); },
        };
        let stream_name = match role_selector(pairs, "stream_name") {
            Ok(s) => s,
            Err(e) => { return Err(e); },
        };
        let stream_viewer_count = match role_selector(pairs, "stream_viewer_count") {
            Ok(s) => s,
            Err(e) => { return Err(e); },
        };
        let flag = match role_selector(pairs, "flag") {
            Ok(s) => s,
            Err(e) => { return Err(e); },
        };
        Ok(StreamSelectors { cards, header, stream, stream_name, stream_viewer_count, flag })
    }
}

} // verus!
