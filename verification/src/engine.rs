//! The extraction engines, verified over a plain-value model of the page.
//!
//! The selector layer reduces each match-list container and each livestream
//! card to the texts, attribute values and marker flags that extraction
//! reads (the `Raw*` types below).  The functions here turn that model into
//! the typed records of [`crate::data_structs`], and their contracts pin the
//! result exactly: which container is chosen, which entries survive the
//! state filter, and what every field of every record holds.

use vstd::prelude::*;
use crate::data_structs::{
    EventInfo,
    EventInfoView,
    LivestreamInfo,
    LivestreamInfoView,
    Livestreams,
    LivestreamsView,
    MatchBriefInfo,
    MatchBriefType,
    MatchBriefView,
    TeamBriefView,
    TeamCompletedMatchBriefInfo,
    match_label,
};
use crate::error::ExtractionError;
use crate::text::{parse_i64, parse_i64_spec, parse_u32, parse_u32_spec, parse_u8, parse_u8_spec};
use crate::dom::{timestamp_in_utc_range, utc_in_range};

verus! {

/// What extraction reads from one team slot of a match entry: the trimmed
/// name text and the trimmed score text, each absent when the sub-element
/// was not found.
pub struct RawTeam {
    pub name_text: Option<String>,
    pub score_text: Option<String>,
}

/// What extraction reads from one candidate match entry.
pub struct RawMatchEntry {
    /// Whether the entry contains a live-indicator marker element.
    pub has_live_marker: bool,
    pub event_name_text: Option<String>,
    pub event_series_text: Option<String>,
    /// The team slots found, in document order.
    pub teams: Vec<RawTeam>,
    /// The trimmed timestamp attribute of the schedule sub-element.
    pub scheduled_ts_text: Option<String>,
}

/// One match-list container: its trimmed header text, if a header element
/// was found, and its candidate entries in document order.
pub struct RawContainer {
    pub header_text: Option<String>,
    pub entries: Vec<RawMatchEntry>,
}

/// What extraction reads from one livestream entry.
pub struct RawStream {
    pub name_text: Option<String>,
    pub title_attr: Option<String>,
    pub viewer_text: Option<String>,
    pub href_attr: Option<String>,
    /// Whether the entry contains a flag marker element.
    pub has_flag: bool,
}

/// One candidate livestream card: its trimmed header text, if present, and
/// its stream entries in document order.
pub struct RawCard {
    pub header_text: Option<String>,
    pub streams: Vec<RawStream>,
}

pub open spec fn view_of_opt_string(o: Option<String>) -> Option<Seq<char>> {
    match o {
        Some(s) => Some(s@),
        None => None,
    }
}

#[verifier::ext_equal]
pub ghost struct RawTeamView {
    pub name_text: Option<Seq<char>>,
    pub score_text: Option<Seq<char>>,
}

impl View for RawTeam {
    type V = RawTeamView;

    open spec fn view(&self) -> RawTeamView {
        RawTeamView {
            name_text: view_of_opt_string(self.name_text),
            score_text: view_of_opt_string(self.score_text),
        }
    }
}

#[verifier::ext_equal]
pub ghost struct RawMatchEntryView {
    pub has_live_marker: bool,
    pub event_name_text: Option<Seq<char>>,
    pub event_series_text: Option<Seq<char>>,
    pub teams: Seq<RawTeamView>,
    pub scheduled_ts_text: Option<Seq<char>>,
}

impl View for RawMatchEntry {
    type V = RawMatchEntryView;

    open spec fn view(&self) -> RawMatchEntryView {
        RawMatchEntryView {
            has_live_marker: self.has_live_marker,
            event_name_text: view_of_opt_string(self.event_name_text),
            event_series_text: view_of_opt_string(self.event_series_text),
            teams: self.teams@.map_values(|t: RawTeam| t@),
            scheduled_ts_text: view_of_opt_string(self.scheduled_ts_text),
        }
    }
}

#[verifier::ext_equal]
pub ghost struct RawContainerView {
    pub header_text: Option<Seq<char>>,
    pub entries: Seq<RawMatchEntryView>,
}

impl View for RawContainer {
    type V = RawContainerView;

    open spec fn view(&self) -> RawContainerView {
        RawContainerView {
            header_text: view_of_opt_string(self.header_text),
            entries: self.entries@.map_values(|e: RawMatchEntry| e@),
        }
    }
}

#[verifier::ext_equal]
pub ghost struct RawStreamView {
    pub name_text: Option<Seq<char>>,
    pub title_attr: Option<Seq<char>>,
    pub viewer_text: Option<Seq<char>>,
    pub href_attr: Option<Seq<char>>,
    pub has_flag: bool,
}

impl View for RawStream {
    type V = RawStreamView;

    open spec fn view(&self) -> RawStreamView {
        RawStreamView {
            name_text: view_of_opt_string(self.name_text),
            title_attr: view_of_opt_string(self.title_attr),
            viewer_text: view_of_opt_string(self.viewer_text),
            href_attr: view_of_opt_string(self.href_attr),
            has_flag: self.has_flag,
        }
    }
}

#[verifier::ext_equal]
pub ghost struct RawCardView {
    pub header_text: Option<Seq<char>>,
    pub streams: Seq<RawStreamView>,
}

impl View for RawCard {
    type V = RawCardView;

    open spec fn view(&self) -> RawCardView {
        RawCardView {
            header_text: view_of_opt_string(self.header_text),
            streams: self.streams@.map_values(|s: RawStream| s@),
        }
    }
}

pub open spec fn views_of_containers(s: Seq<RawContainer>) -> Seq<RawContainerView> {
    s.map_values(|c: RawContainer| c@)
}

pub open spec fn views_of_entries(s: Seq<RawMatchEntry>) -> Seq<RawMatchEntryView> {
    s.map_values(|e: RawMatchEntry| e@)
}

pub open spec fn views_of_matches(s: Seq<MatchBriefInfo>) -> Seq<MatchBriefView> {
    s.map_values(|m: MatchBriefInfo| m@)
}

pub open spec fn views_of_cards(s: Seq<RawCard>) -> Seq<RawCardView> {
    s.map_values(|c: RawCard| c@)
}

/// An absent text populates its field with the empty string.
pub open spec fn opt_text(o: Option<Seq<char>>) -> Seq<char> {
    match o {
        Some(s) => s,
        None => Seq::empty(),
    }
}

/// The team record for slot `i` of an entry: name text or empty, and the
/// parsed score.  A slot beyond the teams that were found keeps its default.
/// An unparsable or absent score stays `None`, never zero.
pub open spec fn team_slot_record(teams: Seq<RawTeamView>, i: int) -> TeamBriefView {
    if 0 <= i < teams.len() {
        TeamBriefView {
            name: opt_text(teams[i].name_text),
            maps_won: match teams[i].score_text {
                Some(t) => parse_u8_spec(t),
                None => None,
            },
        }
    } else {
        TeamBriefView { name: Seq::empty(), maps_won: None }
    }
}

/// The scheduled time of an entry: the timestamp attribute text parsed as
/// Unix seconds, kept only when it resolves to a single UTC instant.
pub open spec fn scheduled_time_of(attr: Option<Seq<char>>) -> Option<i64> {
    match attr {
        Some(t) => match parse_i64_spec(t) {
            Some(ts) => if utc_in_range(ts) {
                Some(ts)
            } else {
                None
            },
            None => None,
        },
        None => None,
    }
}

/// The match record an entry populates.
pub open spec fn record_of_entry(e: RawMatchEntryView) -> MatchBriefView {
    MatchBriefView {
        event: EventInfoView {
            name: opt_text(e.event_name_text),
            series: opt_text(e.event_series_text),
        },
        teams: seq![team_slot_record(e.teams, 0), team_slot_record(e.teams, 1)],
        scheduled_time: scheduled_time_of(e.scheduled_ts_text),
    }
}

/// The state filter: live matches must carry the live-indicator marker,
/// future matches must not, and completed matches are kept unconditionally
/// (their container label already disambiguates).
pub open spec fn entry_kept(t: MatchBriefType, e: RawMatchEntryView) -> bool {
    match t {
        MatchBriefType::Live => e.has_live_marker,
        MatchBriefType::InFuture => !e.has_live_marker,
        MatchBriefType::Completed => true,
    }
}

/// The records of a container's entries: entries surviving the state filter,
/// in document order, each populated by [`record_of_entry`].
pub open spec fn records_of_entries(es: Seq<RawMatchEntryView>, t: MatchBriefType) -> Seq<
    MatchBriefView,
>
    decreases es.len(),
{
    if es.len() == 0 {
        Seq::empty()
    } else {
        let rest = records_of_entries(es.drop_last(), t);
        if entry_kept(t, es.last()) {
            rest.push(record_of_entry(es.last()))
        } else {
            rest
        }
    }
}

/// Whether a container's header text matches the label of the requested
/// type.  A container without a header matches nothing.
pub open spec fn header_matches(c: RawContainerView, t: MatchBriefType) -> bool {
    match c.header_text {
        Some(h) => h == match_label(t),
        None => false,
    }
}

/// The result of scanning the containers in document order for the requested
/// type: the records of the first container whose header matches, or `None`
/// when a container lacks its header element or no header matches at all.
pub open spec fn scan_containers(cs: Seq<RawContainerView>, t: MatchBriefType) -> Option<
    Seq<MatchBriefView>,
>
    decreases cs.len(),
{
    if cs.len() == 0 {
        None
    } else {
        match cs[0].header_text {
            None => None,
            Some(h) => if h == match_label(t) {
                Some(records_of_entries(cs[0].entries, t))
            } else {
                scan_containers(cs.drop_first(), t)
            },
        }
    }
}

/// The team record for slot `i`, as executable code.
fn build_team(teams: &Vec<RawTeam>, i: usize) -> (r: TeamCompletedMatchBriefInfo)
    ensures
        r@ == team_slot_record(teams@.map_values(|t: RawTeam| t@), i as int),
{
    if i < teams.len() {
        let t = &teams[i];
        let name = match &t.name_text {
            Some(s) => s.clone(),
            None => String::new(),
        };
        let maps_won = match &t.score_text {
            Some(s) => parse_u8(s.as_str()),
            None => None,
        };
        let r = TeamCompletedMatchBriefInfo { name, maps_won };
        proof {
            assert(teams@.map_values(|t: RawTeam| t@)[i as int] == teams@[i as int]@);
        }
        r
    } else {
        TeamCompletedMatchBriefInfo { name: String::new(), maps_won: None }
    }
}

/// Populates the match record of one entry.
fn build_record(e: &RawMatchEntry) -> (r: MatchBriefInfo)
    ensures
        r@ == record_of_entry(e@),
{
    let name = match &e.event_name_text {
        Some(s) => s.clone(),
        None => String::new(),
    };
    let series = match &e.event_series_text {
        Some(s) => s.clone(),
        None => String::new(),
    };
    let team0 = build_team(&e.teams, 0);
    let team1 = build_team(&e.teams, 1);
    let scheduled_time = match &e.scheduled_ts_text {
        Some(t) => match parse_i64(t.as_str()) {
            Some(ts) => if timestamp_in_utc_range(ts) {
                Some(ts)
            } else {
                None
            },
            None => None,
        },
        None => None,
    };
    let r = MatchBriefInfo { event: EventInfo { name, series }, teams: [team0, team1], scheduled_time };
    proof {
        assert(r@.teams[0] == r.teams@[0]@);
        assert(r@.teams[1] == r.teams@[1]@);
        assert(r@.teams =~= record_of_entry(e@).teams);
        assert(r@ =~= record_of_entry(e@));
    }
    r
}

/// The records of one container's entries, in document order.
fn records_from_entries(entries: &Vec<RawMatchEntry>, requested: MatchBriefType) -> (r: Vec<
    MatchBriefInfo,
>)
    ensures
        views_of_matches(r@) == records_of_entries(views_of_entries(entries@), requested),
{
    let ghost evs = views_of_entries(entries@);
    let mut out: Vec<MatchBriefInfo> = Vec::new();
    proof {
        assert(views_of_matches(out@) =~= records_of_entries(evs.take(0), requested));
    }
    let mut i: usize = 0;
    while i < entries.len()
        invariant
            0 <= i <= entries.len(),
            evs == views_of_entries(entries@),
            evs.len() == entries.len(),
            views_of_matches(out@) == records_of_entries(evs.take(i as int), requested),
        decreases entries.len() - i,
    {
        let ghost prev = out@;
        let e = &entries[i];
        let keep = match requested {
            MatchBriefType::Live => e.has_live_marker,
            MatchBriefType::InFuture => !e.has_live_marker,
            MatchBriefType::Completed => true,
        };
        proof {
            assert(evs[i as int] == entries@[i as int]@);
            assert(keep == entry_kept(requested, evs[i as int]));
        }
        if keep {
            let rec = build_record(e);
            proof {
                assert(views_of_matches(prev.push(rec)) =~= views_of_matches(prev).push(rec@));
            }
            out.push(rec);
        }
        proof {
            assert(evs.take(i as int + 1).drop_last() =~= evs.take(i as int));
            assert(evs.take(i as int + 1).last() == evs[i as int]);
        }
        i = i + 1;
    }
    proof {
        assert(evs.take(entries@.len() as int) =~= evs);
    }
    out
}

/// Extracts the match records of the requested type from the container
/// models, scanning containers in document order for the first whose header
/// matches the requested label.
///
/// Fails with [`ExtractionError`] exactly when the scan fails: a container
/// is missing its header element, or no container carries the requested
/// label.  Every per-field absence inside entries is tolerated instead.
pub fn extract_matches(containers: &Vec<RawContainer>, requested: MatchBriefType) -> (r: Result<
    Vec<MatchBriefInfo>,
    ExtractionError,
>)
    ensures
        match r {
            Ok(v) => scan_containers(views_of_containers(containers@), requested) == Some(
                views_of_matches(v@),
            ),
            Err(e) => scan_containers(views_of_containers(containers@), requested) is None
                && e.requested == requested,
        },
{
    let ghost cvs = views_of_containers(containers@);
    proof {
        assert(cvs.skip(0) =~= cvs);
    }
    let label = requested.label();
    let mut i: usize = 0;
    while i < containers.len()
        invariant
            0 <= i <= containers.len(),
            cvs == views_of_containers(containers@),
            cvs.len() == containers.len(),
            label@ == match_label(requested),
            scan_containers(cvs, requested) == scan_containers(cvs.skip(i as int), requested),
        decreases containers.len() - i,
    {
        let c = &containers[i];
        proof {
            assert(cvs[i as int] == containers@[i as int]@);
            assert(cvs.skip(i as int)[0] == cvs[i as int]);
            assert(cvs.skip(i as int).drop_first() =~= cvs.skip(i as int + 1));
        }
        match &c.header_text {
            None => {
                return Err(ExtractionError { requested });
            },
            Some(h) => {
                if *h == label {
                    let v = records_from_entries(&c.entries, requested);
                    proof {
                        assert(cvs[i as int].entries =~= views_of_entries(c.entries@));
                    }
                    return Ok(v);
                }
            },
        }
        i = i + 1;
    }
    proof {
        assert(cvs.skip(containers@.len() as int) =~= Seq::<RawContainerView>::empty());
    }
    Err(ExtractionError { requested })
}

/// The livestream record an entry populates.
pub open spec fn stream_record(s: RawStreamView) -> LivestreamInfoView {
    LivestreamInfoView {
        name: opt_text(s.name_text),
        title: s.title_attr,
        viewer_count: match s.viewer_text {
            Some(t) => parse_u32_spec(t),
            None => None,
        },
        url: opt_text(s.href_attr),
    }
}

/// The curated bucket of a card's streams: entries carrying the flag marker,
/// in document order.
pub open spec fn curated_of_streams(ss: Seq<RawStreamView>) -> Seq<LivestreamInfoView>
    decreases ss.len(),
{
    if ss.len() == 0 {
        Seq::empty()
    } else {
        let rest = curated_of_streams(ss.drop_last());
        if ss.last().has_flag {
            rest.push(stream_record(ss.last()))
        } else {
            rest
        }
    }
}

/// The other-top bucket of a card's streams: entries without the flag
/// marker, in document order.
pub open spec fn other_top_of_streams(ss: Seq<RawStreamView>) -> Seq<LivestreamInfoView>
    decreases ss.len(),
{
    if ss.len() == 0 {
        Seq::empty()
    } else {
        let rest = other_top_of_streams(ss.drop_last());
        if !ss.last().has_flag {
            rest.push(stream_record(ss.last()))
        } else {
            rest
        }
    }
}

/// Whether a card is the livestream card: its header text trims to the
/// literal label.
pub open spec fn stream_card_matches(c: RawCardView) -> bool {
    c.header_text == Some("Live Streams"@)
}

/// The livestream buckets of the first matching card, scanning cards in
/// document order; both buckets are empty when no card matches.  A card
/// without a header is skipped, not an error.
pub open spec fn livestreams_of_cards(cs: Seq<RawCardView>) -> LivestreamsView
    decreases cs.len(),
{
    if cs.len() == 0 {
        LivestreamsView { curated: Seq::empty(), other_top: Seq::empty() }
    } else if stream_card_matches(cs[0]) {
        LivestreamsView {
            curated: curated_of_streams(cs[0].streams),
            other_top: other_top_of_streams(cs[0].streams),
        }
    } else {
        livestreams_of_cards(cs.drop_first())
    }
}

/// Populates the livestream record of one entry.
fn build_stream(s: &RawStream) -> (r: LivestreamInfo)
    ensures
        r@ == stream_record(s@),
{
    let name = match &s.name_text {
        Some(t) => t.clone(),
        None => String::new(),
    };
    let title = match &s.title_attr {
        Some(t) => Some(t.clone()),
        None => None,
    };
    let viewer_count = match &s.viewer_text {
        Some(t) => parse_u32(t.as_str()),
        None => None,
    };
    let url = match &s.href_attr {
        Some(t) => t.clone(),
        None => String::new(),
    };
    LivestreamInfo { name, title, viewer_count, url }
}

/// The two buckets of one card's streams, in document order.
fn buckets_from_streams(streams: &Vec<RawStream>) -> (r: Livestreams)
    ensures
        r@.curated == curated_of_streams(streams@.map_values(|s: RawStream| s@)),
        r@.other_top == other_top_of_streams(streams@.map_values(|s: RawStream| s@)),
{
    let ghost svs = streams@.map_values(|s: RawStream| s@);
    let mut curated: Vec<LivestreamInfo> = Vec::new();
    let mut other_top: Vec<LivestreamInfo> = Vec::new();
    proof {
        assert(curated@.map_values(|s: LivestreamInfo| s@) =~= curated_of_streams(svs.take(0)));
        assert(other_top@.map_values(|s: LivestreamInfo| s@) =~= other_top_of_streams(
            svs.take(0),
        ));
    }
    let mut i: usize = 0;
    while i < streams.len()
        invariant
            0 <= i <= streams.len(),
            svs == streams@.map_values(|s: RawStream| s@),
            svs.len() == streams.len(),
            curated@.map_values(|s: LivestreamInfo| s@) == curated_of_streams(svs.take(i as int)),
            other_top@.map_values(|s: LivestreamInfo| s@) == other_top_of_streams(
                svs.take(i as int),
            ),
        decreases streams.len() - i,
    {
        let s = &streams[i];
        proof {
            assert(svs[i as int] == streams@[i as int]@);
            assert(svs.take(i as int + 1).drop_last() =~= svs.take(i as int));
            assert(svs.take(i as int + 1).last() == svs[i as int]);
        }
        let rec = build_stream(s);
        if s.has_flag {
            let ghost prev = curated@;
            proof {
                assert(prev.push(rec).map_values(|s: LivestreamInfo| s@) =~= prev.map_values(
                    |s: LivestreamInfo| s@,
                ).push(rec@));
            }
            curated.push(rec);
        } else {
            let ghost prev = other_top@;
            proof {
                assert(prev.push(rec).map_values(|s: LivestreamInfo| s@) =~= prev.map_values(
                    |s: LivestreamInfo| s@,
                ).push(rec@));
            }
            other_top.push(rec);
        }
        i = i + 1;
    }
    proof {
        assert(svs.take(streams@.len() as int) =~= svs);
    }
    Livestreams { curated, other_top }
}

/// Extracts the livestream buckets from the card models, scanning cards in
/// document order for the first whose header matches the livestream label.
/// Never fails: without a matching card both buckets are empty.
pub fn extract_livestreams(cards: &Vec<RawCard>) -> (r: Livestreams)
    ensures
        r@ == livestreams_of_cards(views_of_cards(cards@)),
{
    let ghost cvs = views_of_cards(cards@);
    proof {
        assert(cvs.skip(0) =~= cvs);
    }
    let label = "Live Streams".to_owned();
    let mut i: usize = 0;
    while i < cards.len()
        invariant
            0 <= i <= cards.len(),
            cvs == views_of_cards(cards@),
            cvs.len() == cards.len(),
            label@ == "Live Streams"@,
            livestreams_of_cards(cvs) == livestreams_of_cards(cvs.skip(i as int)),
        decreases cards.len() - i,
    {
        let c = &cards[i];
        proof {
            assert(cvs[i as int] == cards@[i as int]@);
            assert(cvs.skip(i as int)[0] == cvs[i as int]);
            assert(cvs.skip(i as int).drop_first() =~= cvs.skip(i as int + 1));
        }
        let is_card = match &c.header_text {
            Some(h) => *h == label,
            None => false,
        };
        if is_card {
            let r = buckets_from_streams(&c.streams);
            proof {
                assert(cvs[i as int].streams =~= c.streams@.map_values(|s: RawStream| s@));
                assert(r@ =~= livestreams_of_cards(cvs));
            }
            return r;
        }
        i = i + 1;
    }
    proof {
        assert(cvs.skip(cards@.len() as int) =~= Seq::<RawCardView>::empty());
    }
    let r = Livestreams { curated: Vec::new(), other_top: Vec::new() };
    proof {
        assert(r@.curated =~= Seq::<LivestreamInfoView>::empty());
        assert(r@.other_top =~= Seq::<LivestreamInfoView>::empty());
        assert(r@ =~= livestreams_of_cards(cvs));
    }
    r
}

/// The live filter and the future filter are complementary: no entry
/// satisfies both, so the live and future result sets drawn from one
/// container are disjoint.
pub proof fn lemma_live_future_disjoint(e: RawMatchEntryView)
    ensures
        !(entry_kept(MatchBriefType::Live, e) && entry_kept(MatchBriefType::InFuture, e)),
{
}

/// The live and future filters partition a container's entries: every entry
/// lands in exactly one of the two result sets, so their lengths add up to
/// the number of entries.
pub proof fn lemma_live_future_partition(es: Seq<RawMatchEntryView>)
    ensures
        records_of_entries(es, MatchBriefType::Live).len() + records_of_entries(
            es,
            MatchBriefType::InFuture,
        ).len() == es.len(),
    decreases es.len(),
{
    if es.len() > 0 {
        lemma_live_future_partition(es.drop_last());
    }
}

/// Extraction is a pure function of the container models and the requested
/// type: any two results of the same scan are equal.  Together with the
/// contract of [`extract_matches`], two calls on the same input yield
/// structurally equal records.
pub proof fn lemma_extraction_deterministic(
    cs: Seq<RawContainerView>,
    t: MatchBriefType,
    r1: Option<Seq<MatchBriefView>>,
    r2: Option<Seq<MatchBriefView>>,
)
    requires
        r1 == scan_containers(cs, t),
        r2 == scan_containers(cs, t),
    ensures
        r1 == r2,
{
}

/// The record is the population, under [`record_of_entry`], of some entry
/// that survives the state filter for `t`.
pub open spec fn record_from_kept_entry(t: MatchBriefType, v: MatchBriefView) -> bool {
    exists|e: RawMatchEntryView|
        #![trigger record_of_entry(e)]
        entry_kept(t, e) && v == record_of_entry(e)
}

/// The stream is the population, under [`stream_record`], of some entry
/// carrying the flag marker.
pub open spec fn stream_from_flagged(v: LivestreamInfoView) -> bool {
    exists|s: RawStreamView| #![trigger stream_record(s)] s.has_flag && v == stream_record(s)
}

/// The stream is the population, under [`stream_record`], of some entry
/// without the flag marker.
pub open spec fn stream_from_unflagged(v: LivestreamInfoView) -> bool {
    exists|s: RawStreamView| #![trigger stream_record(s)] !s.has_flag && v == stream_record(s)
}

/// A successful scan takes its records from some container whose header
/// matches the requested label.
pub proof fn lemma_scan_finds_container(cs: Seq<RawContainerView>, t: MatchBriefType)
    requires
        scan_containers(cs, t) is Some,
    ensures
        exists|k: int|
            #![trigger cs[k]]
            0 <= k < cs.len() && header_matches(cs[k], t) && scan_containers(cs, t) == Some(
                records_of_entries(cs[k].entries, t),
            ),
    decreases cs.len(),
{
    if header_matches(cs[0], t) {
        assert(0 <= 0 < cs.len() && header_matches(cs[0], t) && scan_containers(cs, t) == Some(
            records_of_entries(cs[0].entries, t),
        ));
    } else {
        lemma_scan_finds_container(cs.drop_first(), t);
        let k = choose|k: int|
            #![trigger cs.drop_first()[k]]
            0 <= k < cs.drop_first().len() && header_matches(cs.drop_first()[k], t)
                && scan_containers(cs.drop_first(), t) == Some(
                records_of_entries(cs.drop_first()[k].entries, t),
            );
        assert(cs.drop_first()[k] == cs[k + 1]);
        assert(0 <= k + 1 < cs.len() && header_matches(cs[k + 1], t) && scan_containers(cs, t)
            == Some(records_of_entries(cs[k + 1].entries, t)));
    }
}

/// The livestream buckets are either both empty or taken from some card
/// whose header matches the livestream label.
pub proof fn lemma_livestreams_from_some_card(cs: Seq<RawCardView>)
    ensures
        livestreams_of_cards(cs) == (LivestreamsView {
            curated: Seq::<LivestreamInfoView>::empty(),
            other_top: Seq::<LivestreamInfoView>::empty(),
        }) || exists|k: int|
            #![trigger cs[k]]
            0 <= k < cs.len() && stream_card_matches(cs[k]) && livestreams_of_cards(cs) == (
            LivestreamsView {
                curated: curated_of_streams(cs[k].streams),
                other_top: other_top_of_streams(cs[k].streams),
            }),
    decreases cs.len(),
{
    if cs.len() == 0 {
    } else if stream_card_matches(cs[0]) {
        assert(0 <= 0 < cs.len() && stream_card_matches(cs[0]) && livestreams_of_cards(cs) == (
        LivestreamsView {
            curated: curated_of_streams(cs[0].streams),
            other_top: other_top_of_streams(cs[0].streams),
        }));
    } else {
        lemma_livestreams_from_some_card(cs.drop_first());
        if livestreams_of_cards(cs.drop_first()) != (LivestreamsView {
            curated: Seq::<LivestreamInfoView>::empty(),
            other_top: Seq::<LivestreamInfoView>::empty(),
        }) {
            let k = choose|k: int|
                #![trigger cs.drop_first()[k]]
                0 <= k < cs.drop_first().len() && stream_card_matches(cs.drop_first()[k])
                    && livestreams_of_cards(cs.drop_first()) == (LivestreamsView {
                    curated: curated_of_streams(cs.drop_first()[k].streams),
                    other_top: other_top_of_streams(cs.drop_first()[k].streams),
                });
            assert(cs.drop_first()[k] == cs[k + 1]);
            assert(0 <= k + 1 < cs.len() && stream_card_matches(cs[k + 1])
                && livestreams_of_cards(cs) == (LivestreamsView {
                curated: curated_of_streams(cs[k + 1].streams),
                other_top: other_top_of_streams(cs[k + 1].streams),
            }));
        }
    }
}

/// Every record of a container's result set is the population of some entry
/// of that container that survives the state filter.
pub proof fn lemma_record_provenance(es: Seq<RawMatchEntryView>, t: MatchBriefType, i: int)
    requires
        0 <= i < records_of_entries(es, t).len(),
    ensures
        exists|j: int|
            #![trigger record_of_entry(es[j])]
            0 <= j < es.len() && entry_kept(t, es[j]) && records_of_entries(es, t)[i]
                == record_of_entry(es[j]),
    decreases es.len(),
{
    let rest = records_of_entries(es.drop_last(), t);
    if i < rest.len() {
        lemma_record_provenance(es.drop_last(), t, i);
        let j = choose|j: int|
            #![trigger record_of_entry(es.drop_last()[j])]
            0 <= j < es.drop_last().len() && entry_kept(t, es.drop_last()[j])
                && records_of_entries(es.drop_last(), t)[i] == record_of_entry(es.drop_last()[j]);
        assert(es.drop_last()[j] == es[j]);
        assert(records_of_entries(es, t)[i] == rest[i]);
        assert(0 <= j < es.len() && entry_kept(t, es[j]) && records_of_entries(es, t)[i]
            == record_of_entry(es[j]));
    } else {
        let j = es.len() - 1;
        assert(entry_kept(t, es.last()));
        assert(records_of_entries(es, t)[i] == record_of_entry(es.last()));
        assert(0 <= j < es.len() && entry_kept(t, es[j]) && records_of_entries(es, t)[i]
            == record_of_entry(es[j]));
    }
}

/// Every stream of the curated bucket is the population of some flagged
/// entry of the card.
pub proof fn lemma_curated_provenance(ss: Seq<RawStreamView>, i: int)
    requires
        0 <= i < curated_of_streams(ss).len(),
    ensures
        exists|j: int|
            #![trigger stream_record(ss[j])]
            0 <= j < ss.len() && ss[j].has_flag && curated_of_streams(ss)[i] == stream_record(
                ss[j],
            ),
    decreases ss.len(),
{
    let rest = curated_of_streams(ss.drop_last());
    if i < rest.len() {
        lemma_curated_provenance(ss.drop_last(), i);
        let j = choose|j: int|
            #![trigger stream_record(ss.drop_last()[j])]
            0 <= j < ss.drop_last().len() && ss.drop_last()[j].has_flag && curated_of_streams(
                ss.drop_last(),
            )[i] == stream_record(ss.drop_last()[j]);
        assert(ss.drop_last()[j] == ss[j]);
        assert(curated_of_streams(ss)[i] == rest[i]);
        assert(0 <= j < ss.len() && ss[j].has_flag && curated_of_streams(ss)[i] == stream_record(
            ss[j],
        ));
    } else {
        let j = ss.len() - 1;
        assert(ss.last().has_flag);
        assert(curated_of_streams(ss)[i] == stream_record(ss.last()));
        assert(0 <= j < ss.len() && ss[j].has_flag && curated_of_streams(ss)[i] == stream_record(
            ss[j],
        ));
    }
}

/// Every stream of the other-top bucket is the population of some unflagged
/// entry of the card.
pub proof fn lemma_other_top_provenance(ss: Seq<RawStreamView>, i: int)
    requires
        0 <= i < other_top_of_streams(ss).len(),
    ensures
        exists|j: int|
            #![trigger stream_record(ss[j])]
            0 <= j < ss.len() && !ss[j].has_flag && other_top_of_streams(ss)[i] == stream_record(
                ss[j],
            ),
    decreases ss.len(),
{
    let rest = other_top_of_streams(ss.drop_last());
    if i < rest.len() {
        lemma_other_top_provenance(ss.drop_last(), i);
        let j = choose|j: int|
            #![trigger stream_record(ss.drop_last()[j])]
            0 <= j < ss.drop_last().len() && !ss.drop_last()[j].has_flag && other_top_of_streams(
                ss.drop_last(),
            )[i] == stream_record(ss.drop_last()[j]);
        assert(ss.drop_last()[j] == ss[j]);
        assert(other_top_of_streams(ss)[i] == rest[i]);
        assert(0 <= j < ss.len() && !ss[j].has_flag && other_top_of_streams(ss)[i]
            == stream_record(ss[j]));
    } else {
        let j = ss.len() - 1;
        assert(!ss.last().has_flag);
        assert(other_top_of_streams(ss)[i] == stream_record(ss.last()));
        assert(0 <= j < ss.len() && !ss[j].has_flag && other_top_of_streams(ss)[i]
            == stream_record(ss[j]));
    }
}

} // verus!
