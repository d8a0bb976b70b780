//! Handles extraction of content from the site's main page.
//!
//! The scraper parses the HTML once and holds the compiled selector sets.
//! Each public call reduces the relevant part of the document to the
//! plain-value model of [`crate::engine`] and runs the verified extraction
//! over it, so everything downstream of the selector queries — container
//! classification, the state filter, field population, bucket placement —
//! is proved, not trusted.

use vstd::prelude::*;
use crate::data_structs::{Livestreams, MatchBriefInfo, MatchBriefType};
use crate::dom::{
    attr_of,
    parse_document,
    select_in_document,
    select_in_element,
    text_of,
};
use crate::engine::{
    extract_livestreams,
    extract_matches,
    entry_kept,
    lemma_curated_provenance,
    lemma_livestreams_from_some_card,
    lemma_other_top_provenance,
    lemma_record_provenance,
    lemma_scan_finds_container,
    record_from_kept_entry,
    record_of_entry,
    stream_from_flagged,
    stream_from_unflagged,
    stream_record,
    views_of_cards,
    views_of_containers,
    views_of_matches,
    RawCard,
    RawContainer,
    RawMatchEntry,
    RawMatchEntryView,
    RawStream,
    RawStreamView,
    RawTeam,
};
use crate::error::{ConfigError, ExtractionError};
use crate::scrapers::{
    match_config_ok,
    stream_config_ok,
    views_of_pairs,
    MatchSelectors,
    StreamSelectors,
};
use crate::text::trimmed;

verus! {

/// The first descendant of the element matching the selector, if any.
fn first_in<'a>(e: &scraper::ElementRef<'a>, sel: &scraper::Selector) -> Option<
    scraper::ElementRef<'a>,
> {
    let mut found = select_in_element(e, sel);
    if found.len() > 0 {
        Some(found.remove(0))
    } else {
        None
    }
}

/// The trimmed text of the first descendant matching the selector, absent
/// when no element matches.
fn first_text<'a>(e: &scraper::ElementRef<'a>, sel: &scraper::Selector) -> Option<String> {
    match first_in(e, sel) {
        Some(el) => Some(trimmed(text_of(&el).as_str())),
        None => None,
    }
}

/// The trimmed value of the named attribute of the element, absent when the
/// element does not carry it.
fn trimmed_attr<'a>(e: &scraper::ElementRef<'a>, name: &str) -> Option<String> {
    match attr_of(e, name) {
        Some(v) => Some(trimmed(v.as_str())),
        None => None,
    }
}

/// Reads one team slot element: its name text and score text.
fn read_team<'a>(e: &scraper::ElementRef<'a>, sels: &MatchSelectors) -> RawTeam {
    RawTeam {
        name_text: first_text(e, &sels.team_name),
        score_text: first_text(e, &sels.team_score),
    }
}

/// Reads one candidate match entry element.
fn read_entry<'a>(e: &scraper::ElementRef<'a>, sels: &MatchSelectors) -> RawMatchEntry {
    let has_live_marker = first_in(e, &sels.live).is_some();
    let event_name_text = first_text(e, &sels.event_name);
    let event_series_text = first_text(e, &sels.event_series);
    let team_elems = select_in_element(e, &sels.teams);
    let mut teams: Vec<RawTeam> = Vec::new();
    let mut i: usize = 0;
    while i < team_elems.len()
        invariant
            0 <= i <= team_elems.len(),
        decreases team_elems.len() - i,
    {
        teams.push(read_team(&team_elems[i], sels));
        i = i + 1;
    }
    let scheduled_ts_text = match first_in(e, &sels.scheduled_time) {
        Some(el) => trimmed_attr(&el, "data-utc-ts"),
        None => None,
    };
    RawMatchEntry { has_live_marker, event_name_text, event_series_text, teams, scheduled_ts_text }
}

/// Reads one match-list container element: its header text and entries.
fn read_container<'a>(e: &scraper::ElementRef<'a>, sels: &MatchSelectors) -> RawContainer {
    let header_text = first_text(e, &sels.header);
    let entry_elems = select_in_element(e, &sels.entry);
    let mut entries: Vec<RawMatchEntry> = Vec::new();
    let mut i: usize = 0;
    while i < entry_elems.len()
        invariant
            0 <= i <= entry_elems.len(),
        decreases entry_elems.len() - i,
    {
        entries.push(read_entry(&entry_elems[i], sels));
        i = i + 1;
    }
    RawContainer { header_text, entries }
}

/// Reads one livestream entry element.
fn read_stream<'a>(e: &scraper::ElementRef<'a>, sels: &StreamSelectors) -> RawStream {
    RawStream {
        name_text: first_text(e, &sels.stream_name),
        title_attr: trimmed_attr(e, "title"),
        viewer_text: first_text(e, &sels.stream_viewer_count),
        href_attr: trimmed_attr(e, "href"),
        has_flag: first_in(e, &sels.flag).is_some(),
    }
}

/// Reads one candidate card element: its header text and stream entries.
fn read_card<'a>(e: &scraper::ElementRef<'a>, sels: &StreamSelectors) -> RawCard {
    let header_text = first_text(e, &sels.header);
    let stream_elems = select_in_element(e, &sels.stream);
    let mut streams: Vec<RawStream> = Vec::new();
    let mut i: usize = 0;
    while i < stream_elems.len()
        invariant
            0 <= i <= stream_elems.len(),
        decreases stream_elems.len() - i,
    {
        streams.push(read_stream(&stream_elems[i], sels));
        i = i + 1;
    }
    RawCard { header_text, streams }
}

/// Handles extraction of content from the site's main page.
///
/// Construct it with the raw page HTML and the selector configuration; the
/// document is parsed once and every extraction call reads it without
/// mutating it.
pub struct MainPageScraper {
    doc: scraper::Html,
    match_sels: MatchSelectors,
    stream_sels: StreamSelectors,
}

impl MainPageScraper {
    /// Parses the document and compiles both selector sets.  Fails exactly
    /// when a required selector role is missing from its configuration or
    /// its pattern does not compile.
    pub fn new(
        html: &str,
        match_config: &Vec<(String, String)>,
        stream_config: &Vec<(String, String)>,
    ) -> (r: Result<MainPageScraper, ConfigError>)
        ensures
            r is Ok <==> match_config_ok(views_of_pairs(match_config@)) && stream_config_ok(
                views_of_pairs(stream_config@),
            ),
    {
        let match_sels = match MatchSelectors::from_config(match_config) {
            Ok(s) => s,
            Err(e) => { return Err(e); },
        };
        let stream_sels = match StreamSelectors::from_config(stream_config) {
            Ok(s) => s,
            Err(e) => { return Err(e); },
        };
        Ok(MainPageScraper { doc: parse_document(html), match_sels, stream_sels })
    }

    /// Reduces every match-list container of the document to its
    /// plain-value model, in document order.
    fn snapshot_containers(&self) -> Vec<RawContainer> {
        let container_elems = select_in_document(&self.doc, &self.match_sels.containers);
        let mut containers: Vec<RawContainer> = Vec::new();
        let mut i: usize = 0;
        while i < container_elems.len()
            invariant
                0 <= i <= container_elems.len(),
            decreases container_elems.len() - i,
        {
            containers.push(read_container(&container_elems[i], &self.match_sels));
            i = i + 1;
        }
        containers
    }

    /// Reduces every candidate card of the document to its plain-value
    /// model, in document order.
    fn snapshot_cards(&self) -> Vec<RawCard> {
        let card_elems = select_in_document(&self.doc, &self.stream_sels.cards);
        let mut cards: Vec<RawCard> = Vec::new();
        let mut i: usize = 0;
        while i < card_elems.len()
            invariant
                0 <= i <= card_elems.len(),
            decreases card_elems.len() - i,
        {
            cards.push(read_card(&card_elems[i], &self.stream_sels));
            i = i + 1;
        }
        cards
    }

    /// Gets information available on the main page for the matches of the
    /// given type.
    ///
    /// Whatever the document holds, every returned record is the population
    /// of some entry that survived the state filter for `_type`, and an
    /// error carries the requested type whose header anchor could not be
    /// located.
    pub fn matches_brief(&self, _type: MatchBriefType) -> (r: Result<
        Vec<MatchBriefInfo>,
        ExtractionError,
    >)
        ensures
            match r {
                Ok(v) => forall|i: int|
                    #![trigger v@[i]]
                    0 <= i < v@.len() ==> record_from_kept_entry(_type, v@[i]@),
                Err(err) => err.requested == _type,
            },
    {
        let containers = self.snapshot_containers();
        let r = extract_matches(&containers, _type);
        proof {
            let cs = views_of_containers(containers@);
            if r is Ok {
                let v = r->Ok_0;
                lemma_scan_finds_container(cs, _type);
                let k = choose|k: int|
                    #![trigger cs[k]]
                    0 <= k < cs.len() && crate::engine::header_matches(cs[k], _type)
                        && crate::engine::scan_containers(cs, _type) == Some(
                        crate::engine::records_of_entries(cs[k].entries, _type),
                    );
                let es = cs[k].entries;
                assert forall|i: int| #![trigger v@[i]] 0 <= i < v@.len() implies
                    record_from_kept_entry(_type, v@[i]@) by {
                    assert(views_of_matches(v@)[i] == v@[i]@);
                    lemma_record_provenance(es, _type, i);
                    let j = choose|j: int|
                        #![trigger record_of_entry(es[j])]
                        0 <= j < es.len() && entry_kept(_type, es[j])
                            && crate::engine::records_of_entries(es, _type)[i]
                            == record_of_entry(es[j]);
                    assert(entry_kept(_type, es[j]) && v@[i]@ == record_of_entry(es[j]));
                }
            }
        }
        r
    }

    /// Gets the livestream information available on the main page.
    ///
    /// This differs from simply listing the game's streams on a streaming
    /// platform: the site curates a list of pro player and tournament
    /// streams, and fills the remaining card space with the other top
    /// streams.  Whatever the document holds, every stream in `curated` is
    /// the population of an entry carrying the flag marker, and every
    /// stream in `other_top` of one without it.
    pub fn live_streams(&self) -> (r: Livestreams)
        ensures
            forall|i: int|
                #![trigger r@.curated[i]]
                0 <= i < r@.curated.len() ==> stream_from_flagged(r@.curated[i]),
            forall|i: int|
                #![trigger r@.other_top[i]]
                0 <= i < r@.other_top.len() ==> stream_from_unflagged(r@.other_top[i]),
    {
        let cards = self.snapshot_cards();
        let r = extract_livestreams(&cards);
        proof {
            let cs = views_of_cards(cards@);
            assert forall|i: int| #![trigger r@.curated[i]] 0 <= i < r@.curated.len() implies
                stream_from_flagged(r@.curated[i]) by {
                lemma_livestreams_from_some_card(cs);
                let k = choose|k: int|
                    #![trigger cs[k]]
                    0 <= k < cs.len() && crate::engine::stream_card_matches(cs[k])
                        && crate::engine::livestreams_of_cards(cs) == (
                        crate::data_structs::LivestreamsView {
                        curated: crate::engine::curated_of_streams(cs[k].streams),
                        other_top: crate::engine::other_top_of_streams(cs[k].streams),
                    });
                let ss = cs[k].streams;
                assert(r@.curated == crate::engine::curated_of_streams(ss));
                lemma_curated_provenance(ss, i);
                let j = choose|j: int|
                    #![trigger stream_record(ss[j])]
                    0 <= j < ss.len() && ss[j].has_flag
                        && crate::engine::curated_of_streams(ss)[i] == stream_record(ss[j]);
                assert(ss[j].has_flag && r@.curated[i] == stream_record(ss[j]));
            }
            assert forall|i: int| #![trigger r@.other_top[i]] 0 <= i < r@.other_top.len() implies
                stream_from_unflagged(r@.other_top[i]) by {
                lemma_livestreams_from_some_card(cs);
                let k = choose|k: int|
                    #![trigger cs[k]]
                    0 <= k < cs.len() && crate::engine::stream_card_matches(cs[k])
                        && crate::engine::livestreams_of_cards(cs) == (
                        crate::data_structs::LivestreamsView {
                        curated: crate::engine::curated_of_streams(cs[k].streams),
                        other_top: crate::engine::other_top_of_streams(cs[k].streams),
                    });
                let ss = cs[k].streams;
                assert(r@.other_top == crate::engine::other_top_of_streams(ss));
                lemma_other_top_provenance(ss, i);
                let j = choose|j: int|
                    #![trigger stream_record(ss[j])]
                    0 <= j < ss.len() && !ss[j].has_flag
                        && crate::engine::other_top_of_streams(ss)[i] == stream_record(ss[j]);
                assert(!ss[j].has_flag && r@.other_top[i] == stream_record(ss[j]));
            }
        }
        r
    }
}

} // verus!
