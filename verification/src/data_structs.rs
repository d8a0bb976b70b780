//! The record types produced by the extraction engines, their mathematical
//! views, and the winner / loser derivation over a match record.

use vstd::prelude::*;

verus! {

/// How many maps a match is played over.
pub enum MatchType {
    Bo3,
    Bo5,
}

/// Used to specify whether completed, live or future matches should be
/// extracted.
#[derive(Debug, PartialEq, Eq, Structural, Copy, Clone)]
pub enum MatchBriefType {
    InFuture,
    Live,
    Completed,
}

/// The header label under which the site lists matches of the given type.
/// Future and live matches share one list and are told apart by a marker
/// element on each entry.
pub open spec fn match_label(t: MatchBriefType) -> Seq<char> {
    match t {
        MatchBriefType::Completed => "completed matches"@,
        MatchBriefType::InFuture => "upcoming matches"@,
        MatchBriefType::Live => "upcoming matches"@,
    }
}

impl MatchBriefType {
    /// The header label for this match type, as shown on the page.
    pub fn label(&self) -> (r: String)
        ensures
            r@ == match_label(*self),
    {
        match self {
            MatchBriefType::Completed => "completed matches".to_owned(),
            MatchBriefType::InFuture => "upcoming matches".to_owned(),
            MatchBriefType::Live => "upcoming matches".to_owned(),
        }
    }
}

/// Used to statically type the two teams in a match.
#[derive(Debug, Copy, Clone)]
pub enum Team {
    Zero,
    One,
}

/// The tournament / event a match belongs to.  The empty string is the
/// "unset" value for both fields.
#[derive(Debug)]
pub struct EventInfo {
    pub name: String,
    pub series: String,
}

#[verifier::ext_equal]
pub ghost struct EventInfoView {
    pub name: Seq<char>,
    pub series: Seq<char>,
}

impl View for EventInfo {
    type V = EventInfoView;

    open spec fn view(&self) -> EventInfoView {
        EventInfoView { name: self.name@, series: self.series@ }
    }
}

impl PartialEq for EventInfo {
    fn eq(&self, other: &Self) -> (r: bool) {
        self.name == other.name && self.series == other.series
    }
}

impl vstd::std_specs::cmp::PartialEqSpecImpl for EventInfo {
    open spec fn obeys_eq_spec() -> bool {
        true
    }

    open spec fn eq_spec(&self, other: &Self) -> bool {
        self@ == other@
    }
}

impl Default for EventInfo {
    fn default() -> (r: Self)
        ensures
            r@.name == Seq::<char>::empty(),
            r@.series == Seq::<char>::empty(),
    {
        EventInfo { name: String::new(), series: String::new() }
    }
}

/// One team slot of a match entry.  `maps_won` is present only when a score
/// was actually shown and parsed: an absent score is distinct from a score of
/// zero.
#[derive(Debug)]
pub struct TeamCompletedMatchBriefInfo {
    pub name: String,
    pub maps_won: Option<u8>,
}

#[verifier::ext_equal]
pub ghost struct TeamBriefView {
    pub name: Seq<char>,
    pub maps_won: Option<u8>,
}

impl View for TeamCompletedMatchBriefInfo {
    type V = TeamBriefView;

    open spec fn view(&self) -> TeamBriefView {
        TeamBriefView { name: self.name@, maps_won: self.maps_won }
    }
}

impl PartialEq for TeamCompletedMatchBriefInfo {
    fn eq(&self, other: &Self) -> (r: bool) {
        self.name == other.name && self.maps_won == other.maps_won
    }
}

impl vstd::std_specs::cmp::PartialEqSpecImpl for TeamCompletedMatchBriefInfo {
    open spec fn obeys_eq_spec() -> bool {
        true
    }

    open spec fn eq_spec(&self, other: &Self) -> bool {
        self@ == other@
    }
}

impl Default for TeamCompletedMatchBriefInfo {
    fn default() -> (r: Self)
        ensures
            r@.name == Seq::<char>::empty(),
            r@.maps_won is None,
    {
        TeamCompletedMatchBriefInfo { name: String::new(), maps_won: None }
    }
}

/// The payload shared by all three match lifecycle states.  The two team
/// slots are in document order of encounter; slot 0 and slot 1 carry no
/// home / away meaning.  `scheduled_time` is a Unix timestamp in seconds,
/// present only when the page carried one that resolves to a single UTC
/// instant.
#[derive(Debug)]
pub struct MatchBriefInfo {
    pub event: EventInfo,
    pub teams: [TeamCompletedMatchBriefInfo; 2],
    pub scheduled_time: Option<i64>,
}

#[verifier::ext_equal]
pub ghost struct MatchBriefView {
    pub event: EventInfoView,
    pub teams: Seq<TeamBriefView>,
    pub scheduled_time: Option<i64>,
}

impl View for MatchBriefInfo {
    type V = MatchBriefView;

    open spec fn view(&self) -> MatchBriefView {
        MatchBriefView {
            event: self.event@,
            teams: self.teams@.map_values(|t: TeamCompletedMatchBriefInfo| t@),
            scheduled_time: self.scheduled_time,
        }
    }
}

impl PartialEq for MatchBriefInfo {
    fn eq(&self, other: &Self) -> (r: bool) {
        let time_eq = match (self.scheduled_time, other.scheduled_time) {
            (Some(a), Some(b)) => a == b,
            (None, None) => true,
            _ => false,
        };
        let r = self.event == other.event && self.teams[0] == other.teams[0]
            && self.teams[1] == other.teams[1] && time_eq;
        proof {
            assert(self@.teams.len() == 2 && other@.teams.len() == 2);
            assert(self@.teams[0] == self.teams@[0]@ && self@.teams[1] == self.teams@[1]@);
            assert(other@.teams[0] == other.teams@[0]@ && other@.teams[1] == other.teams@[1]@);
            if self@.event == other@.event && self@.teams[0] == other@.teams[0]
                && self@.teams[1] == other@.teams[1]
                && self@.scheduled_time == other@.scheduled_time {
                assert(self@.teams =~= other@.teams);
                assert(self@ =~= other@);
            }
        }
        r
    }
}

impl vstd::std_specs::cmp::PartialEqSpecImpl for MatchBriefInfo {
    open spec fn obeys_eq_spec() -> bool {
        true
    }

    open spec fn eq_spec(&self, other: &Self) -> bool {
        self@ == other@
    }
}

impl Default for MatchBriefInfo {
    fn default() -> (r: Self)
        ensures
            r@.event.name == Seq::<char>::empty(),
            r@.event.series == Seq::<char>::empty(),
            r@.teams.len() == 2,
            r@.teams[0].name == Seq::<char>::empty(),
            r@.teams[0].maps_won is None,
            r@.teams[1].name == Seq::<char>::empty(),
            r@.teams[1].maps_won is None,
            r@.scheduled_time is None,
    {
        let r = MatchBriefInfo {
            event: EventInfo::default(),
            teams: [
                TeamCompletedMatchBriefInfo::default(),
                TeamCompletedMatchBriefInfo::default(),
            ],
            scheduled_time: None,
        };
        proof {
            assert(r@.teams[0] == r.teams@[0]@);
            assert(r@.teams[1] == r.teams@[1]@);
        }
        r
    }
}

/// The slot (0 or 1) of the winning team, if a winner can be determined:
/// both scores must be present and strictly ordered.  A tie, or any absent
/// score, yields `None`.
pub open spec fn winner_slot(m: MatchBriefView) -> Option<int> {
    match (m.teams[0].maps_won, m.teams[1].maps_won) {
        (Some(a), Some(b)) => if a > b {
            Some(0int)
        } else if a < b {
            Some(1int)
        } else {
            None
        },
        _ => None,
    }
}

/// The slot of the losing team, under the same policy as [`winner_slot`].
pub open spec fn loser_slot(m: MatchBriefView) -> Option<int> {
    match (m.teams[0].maps_won, m.teams[1].maps_won) {
        (Some(a), Some(b)) => if a < b {
            Some(0int)
        } else if a > b {
            Some(1int)
        } else {
            None
        },
        _ => None,
    }
}

impl MatchBriefInfo {
    /// Determines which team won the match.
    ///
    /// `None` when the scores are equal or when either score is absent: an
    /// unknown score makes the outcome undeterminable, it is not treated as
    /// zero.
    pub fn winner(&self) -> (r: Option<&TeamCompletedMatchBriefInfo>)
        ensures
            match r {
                Some(t) => winner_slot(self@) is Some && t@ == self@.teams[winner_slot(
                    self@,
                ).unwrap()],
                None => winner_slot(self@) is None,
            },
    {
        proof {
            assert(self@.teams[0] == self.teams@[0]@);
            assert(self@.teams[1] == self.teams@[1]@);
        }
        match (self.teams[0].maps_won, self.teams[1].maps_won) {
            (Some(a), Some(b)) => if a > b {
                Some(&self.teams[0])
            } else if a < b {
                Some(&self.teams[1])
            } else {
                None
            },
            _ => None,
        }
    }

    /// Determines which team lost the match.
    ///
    /// `None` under exactly the conditions of [`MatchBriefInfo::winner`].
    pub fn loser(&self) -> (r: Option<&TeamCompletedMatchBriefInfo>)
        ensures
            match r {
                Some(t) => loser_slot(self@) is Some && t@ == self@.teams[loser_slot(
                    self@,
                ).unwrap()],
                None => loser_slot(self@) is None,
            },
    {
        proof {
            assert(self@.teams[0] == self.teams@[0]@);
            assert(self@.teams[1] == self.teams@[1]@);
        }
        match (self.teams[0].maps_won, self.teams[1].maps_won) {
            (Some(a), Some(b)) => if a < b {
                Some(&self.teams[0])
            } else if a > b {
                Some(&self.teams[1])
            } else {
                None
            },
            _ => None,
        }
    }
}

/// A winner exists exactly when a loser exists; when both exist they sit in
/// different slots and the winner's score is strictly greater than the
/// loser's.
pub proof fn lemma_winner_loser_opposed(m: MatchBriefView)
    ensures
        winner_slot(m) is Some <==> loser_slot(m) is Some,
        winner_slot(m) is Some ==> winner_slot(m).unwrap() != loser_slot(m).unwrap(),
        winner_slot(m) is Some ==> m.teams[winner_slot(m).unwrap()].maps_won.unwrap()
            > m.teams[loser_slot(m).unwrap()].maps_won.unwrap(),
        winner_slot(m) is Some ==> m.teams[winner_slot(m).unwrap()] != m.teams[loser_slot(
            m,
        ).unwrap()],
{
}

/// Outcome derivation boundary: equal scores, or any absent score, determine
/// neither a winner nor a loser.
pub proof fn lemma_no_winner_on_tie_or_absence(m: MatchBriefView)
    requires
        m.teams[0].maps_won == m.teams[1].maps_won || m.teams[0].maps_won is None
            || m.teams[1].maps_won is None,
    ensures
        winner_slot(m) is None,
        loser_slot(m) is None,
{
}

/// One livestream entry of the livestream promotion card.
#[derive(Debug)]
pub struct LivestreamInfo {
    pub name: String,
    pub title: Option<String>,
    pub viewer_count: Option<u32>,
    pub url: String,
}

#[verifier::ext_equal]
pub ghost struct LivestreamInfoView {
    pub name: Seq<char>,
    pub title: Option<Seq<char>>,
    pub viewer_count: Option<u32>,
    pub url: Seq<char>,
}

impl View for LivestreamInfo {
    type V = LivestreamInfoView;

    open spec fn view(&self) -> LivestreamInfoView {
        LivestreamInfoView {
            name: self.name@,
            title: match self.title {
                Some(t) => Some(t@),
                None => None,
            },
            viewer_count: self.viewer_count,
            url: self.url@,
        }
    }
}

impl PartialEq for LivestreamInfo {
    fn eq(&self, other: &Self) -> (r: bool) {
        let title_eq = match (&self.title, &other.title) {
            (Some(a), Some(b)) => *a == *b,
            (None, None) => true,
            _ => false,
        };
        self.name == other.name && title_eq && self.viewer_count == other.viewer_count
            && self.url == other.url
    }
}

impl vstd::std_specs::cmp::PartialEqSpecImpl for LivestreamInfo {
    open spec fn obeys_eq_spec() -> bool {
        true
    }

    open spec fn eq_spec(&self, other: &Self) -> bool {
        self@ == other@
    }
}

impl Default for LivestreamInfo {
    fn default() -> (r: Self)
        ensures
            r@.name == Seq::<char>::empty(),
            r@.title is None,
            r@.viewer_count is None,
            r@.url == Seq::<char>::empty(),
    {
        LivestreamInfo { name: String::new(), title: None, viewer_count: None, url: String::new() }
    }
}

/// The two ordered buckets of the livestream card: streams the site curates
/// (pro players, tournament streams) and whatever other top streams fill the
/// remaining space.  Order within each bucket is document order.
#[derive(Debug)]
pub struct Livestreams {
    pub curated: Vec<LivestreamInfo>,
    pub other_top: Vec<LivestreamInfo>,
}

#[verifier::ext_equal]
pub ghost struct LivestreamsView {
    pub curated: Seq<LivestreamInfoView>,
    pub other_top: Seq<LivestreamInfoView>,
}

impl View for Livestreams {
    type V = LivestreamsView;

    open spec fn view(&self) -> LivestreamsView {
        LivestreamsView {
            curated: self.curated@.map_values(|s: LivestreamInfo| s@),
            other_top: self.other_top@.map_values(|s: LivestreamInfo| s@),
        }
    }
}

impl PartialEq for Livestreams {
    fn eq(&self, other: &Self) -> (r: bool) {
        let r = self.curated == other.curated && self.other_top == other.other_top;
        proof {
            if r {
                assert(self@.curated =~= other@.curated);
                assert(self@.other_top =~= other@.other_top);
                assert(self@ =~= other@);
            } else if self@ == other@ {
                assert(self@.curated.len() == other@.curated.len());
                assert(self.curated@.len() == other.curated@.len());
                assert forall|i: int| 0 <= i < self.curated@.len() implies self.curated@[i]@
                    == other.curated@[i]@ by {
                    assert(self@.curated[i] == other@.curated[i]);
                }
                assert(self@.other_top.len() == other@.other_top.len());
                assert(self.other_top@.len() == other.other_top@.len());
                assert forall|i: int| 0 <= i < self.other_top@.len() implies self.other_top@[i]@
                    == other.other_top@[i]@ by {
                    assert(self@.other_top[i] == other@.other_top[i]);
                }
            }
        }
        r
    }
}

impl vstd::std_specs::cmp::PartialEqSpecImpl for Livestreams {
    open spec fn obeys_eq_spec() -> bool {
        true
    }

    open spec fn eq_spec(&self, other: &Self) -> bool {
        self@ == other@
    }
}

impl Default for Livestreams {
    fn default() -> (r: Self)
        ensures
            r@.curated == Seq::<LivestreamInfoView>::empty(),
            r@.other_top == Seq::<LivestreamInfoView>::empty(),
    {
        let r = Livestreams { curated: Vec::new(), other_top: Vec::new() };
        proof {
            assert(r@.curated =~= Seq::<LivestreamInfoView>::empty());
            assert(r@.other_top =~= Seq::<LivestreamInfoView>::empty());
        }
        r
    }
}

/// Draft of a record for a fully detailed completed match.
pub struct CompletedMatch {
    pub match_type: MatchType,
    pub event: EventInfo,
    pub scheduled_time: Option<i64>,
    pub teams: [TeamCompletedMatchInfo; 2],
}

/// Draft of a per-team record for a fully detailed completed match.
pub struct TeamCompletedMatchInfo {
    pub name: String,
    pub ranking: i32,
    pub maps_won: u8,
}

} // verus!
