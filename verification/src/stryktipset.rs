//! Typed records of one pool round, as the feed reports it.
//!
//! A round holds exactly thirteen draw events; each event holds its
//! description, three-way odds, the public's percentages, optional
//! press tips, and match information with exactly two participants.
//! Every string-typed odds field that the feed sends as JSON `null`
//! is held as the literal text `"Null"`, a display convention kept
//! from the feed's historical behaviour.
//!
//! Each record type has a ghost view (`OddsV` for `Odds`, and so on)
//! over which the decoder's and renderer's contracts are stated.

use vstd::prelude::*;
use crate::json::JsonKind;

verus! {

/// A round holds exactly this many draw events.
pub const EVENT_COUNT: usize = 13;

/// Recent form covers exactly this many games.
pub const FORM_SLOTS: usize = 5;

// ---------------------------------------------------------------------
// Records.
// ---------------------------------------------------------------------

/// Three-way decimal odds as strings, comma as decimal separator;
/// `"Null"` where the feed sent `null`.
#[derive(Debug)]
pub struct Odds {
    pub one: String,
    pub x: String,
    pub two: String,
}

/// The public's three-way percentages, as the feed gives them.
#[derive(Debug)]
pub struct SvenskaFolket {
    pub one: String,
    pub x: String,
    pub two: String,
}

/// Press tips: how many of the papers pick home, draw and away.
#[derive(Debug)]
pub struct TioTidningarsTips {
    pub one: i64,
    pub x: i64,
    pub two: i64,
}

/// A team's five most recent results, newest first, one code each.
#[derive(Debug)]
pub struct Latest {
    pub zero: String,
    pub one: String,
    pub two: String,
    pub three: String,
    pub four: String,
}

/// One participating team.
#[derive(Debug)]
pub struct Participants {
    pub name: String,
    pub goal_avg: String,
    pub latest: Latest,
}

/// One side's league-table entry.
#[derive(Debug)]
pub struct TeamStats {
    pub position: String,
}

/// League-table entries for both sides.
#[derive(Debug)]
pub struct LeagueTable {
    pub home_team: TeamStats,
    pub away_team: TeamStats,
}

/// One broadcast entry of a match.
#[derive(Debug)]
pub struct Media {
    pub channel_name: String,
}

/// Mutual history: earlier meetings won at home, drawn, won away.
#[derive(Debug)]
pub struct Mutuals {
    pub home_wins: i64,
    pub draws: i64,
    pub away_wins: i64,
}

/// An upstream provider's identifier for an event.
#[derive(Debug)]
pub struct ProviderIds {
    pub provider: String,
    pub id: String,
}

/// Match information: the home and away participants in that order,
/// both sides' table entries, broadcasts when listed, and the mutual
/// history.
#[derive(Debug)]
pub struct Match {
    pub participants: (Participants, Participants),
    pub league_table: LeagueTable,
    pub media: Option<Vec<Media>>,
    pub mutuals: Mutuals,
}

/// One draw event: a single match slot of the round.
#[derive(Debug)]
pub struct DrawEvent {
    pub event_description: String,
    pub odds: Odds,
    pub svenska_folket: SvenskaFolket,
    pub tio_tidningars_tips: Option<TioTidningarsTips>,
    pub game: Match,
    pub provider_ids: Option<Vec<ProviderIds>>,
}

/// One week's pool round: its label, the revenue so far as text, and
/// the thirteen draw events in feed order.
#[derive(Debug)]
pub struct PoolRound {
    pub week: String,
    pub revenue: String,
    pub events: Vec<DrawEvent>,
}

impl PoolRound {
    /// A decoded round always holds exactly thirteen events.
    pub open spec fn wf(&self) -> bool {
        self.events@.len() == EVENT_COUNT
    }
}

impl Latest {
    /// The five form codes in positional order, oldest slot last.
    pub fn as_array(&self) -> (r: [&str; 5])
        ensures
            r@.len() == FORM_SLOTS,
            r@[0]@ == self.zero@,
            r@[1]@ == self.one@,
            r@[2]@ == self.two@,
            r@[3]@ == self.three@,
            r@[4]@ == self.four@,
    {
        [
            self.zero.as_str(),
            self.one.as_str(),
            self.two.as_str(),
            self.three.as_str(),
            self.four.as_str(),
        ]
    }
}

// ---------------------------------------------------------------------
// Errors.
// ---------------------------------------------------------------------

/// Why a document does not decode: a required member is absent, a
/// member has the wrong JSON kind, or fewer than thirteen draw events
/// stand at the expected path.
#[derive(Debug)]
pub enum SchemaError {
    MissingField(String),
    TypeMismatch(String, JsonKind, JsonKind),
    TruncatedFeed,
}

/// Why no round was ingested: the source could not be read at all
/// (reported by the surrounding binary), the body is not valid JSON,
/// or the document does not match the schema.
#[derive(Debug)]
pub enum IngestError {
    Unavailable,
    InvalidPayload,
    Schema(SchemaError),
}

// ---------------------------------------------------------------------
// Ghost views.
// ---------------------------------------------------------------------

pub ghost struct OddsV {
    pub one: Seq<char>,
    pub x: Seq<char>,
    pub two: Seq<char>,
}

pub ghost struct SvenskaFolketV {
    pub one: Seq<char>,
    pub x: Seq<char>,
    pub two: Seq<char>,
}

pub ghost struct TioTidningarsTipsV {
    pub one: int,
    pub x: int,
    pub two: int,
}

pub ghost struct LatestV {
    pub zero: Seq<char>,
    pub one: Seq<char>,
    pub two: Seq<char>,
    pub three: Seq<char>,
    pub four: Seq<char>,
}

pub ghost struct ParticipantsV {
    pub name: Seq<char>,
    pub goal_avg: Seq<char>,
    pub latest: LatestV,
}

pub ghost struct TeamStatsV {
    pub position: Seq<char>,
}

pub ghost struct LeagueTableV {
    pub home_team: TeamStatsV,
    pub away_team: TeamStatsV,
}

pub ghost struct MediaV {
    pub channel_name: Seq<char>,
}

pub ghost struct MutualsV {
    pub home_wins: int,
    pub draws: int,
    pub away_wins: int,
}

pub ghost struct ProviderIdsV {
    pub provider: Seq<char>,
    pub id: Seq<char>,
}

pub ghost struct MatchV {
    pub participants: (ParticipantsV, ParticipantsV),
    pub league_table: LeagueTableV,
    pub media: Option<Seq<MediaV>>,
    pub mutuals: MutualsV,
}

pub ghost struct DrawEventV {
    pub event_description: Seq<char>,
    pub odds: OddsV,
    pub svenska_folket: SvenskaFolketV,
    pub tio_tidningars_tips: Option<TioTidningarsTipsV>,
    pub game: MatchV,
    pub provider_ids: Option<Seq<ProviderIdsV>>,
}

pub ghost struct PoolRoundV {
    pub week: Seq<char>,
    pub revenue: Seq<char>,
    pub events: Seq<DrawEventV>,
}

pub ghost enum SchemaErrV {
    MissingField(Seq<char>),
    TypeMismatch(Seq<char>, JsonKind, JsonKind),
    TruncatedFeed,
}

pub ghost enum IngestErrV {
    Unavailable,
    InvalidPayload,
    Schema(SchemaErrV),
}

impl View for Odds {
    type V = OddsV;

    open spec fn view(&self) -> OddsV {
        OddsV { one: self.one@, x: self.x@, two: self.two@ }
    }
}

impl View for SvenskaFolket {
    type V = SvenskaFolketV;

    open spec fn view(&self) -> SvenskaFolketV {
        SvenskaFolketV { one: self.one@, x: self.x@, two: self.two@ }
    }
}

impl View for TioTidningarsTips {
    type V = TioTidningarsTipsV;

    open spec fn view(&self) -> TioTidningarsTipsV {
        TioTidningarsTipsV { one: self.one as int, x: self.x as int, two: self.two as int }
    }
}

impl View for Latest {
    type V = LatestV;

    open spec fn view(&self) -> LatestV {
        LatestV {
            zero: self.zero@,
            one: self.one@,
            two: self.two@,
            three: self.three@,
            four: self.four@,
        }
    }
}

impl View for Participants {
    type V = ParticipantsV;

    open spec fn view(&self) -> ParticipantsV {
        ParticipantsV { name: self.name@, goal_avg: self.goal_avg@, latest: self.latest@ }
    }
}

impl View for TeamStats {
    type V = TeamStatsV;

    open spec fn view(&self) -> TeamStatsV {
        TeamStatsV { position: self.position@ }
    }
}

impl View for LeagueTable {
    type V = LeagueTableV;

    open spec fn view(&self) -> LeagueTableV {
        LeagueTableV { home_team: self.home_team@, away_team: self.away_team@ }
    }
}

impl View for Media {
    type V = MediaV;

    open spec fn view(&self) -> MediaV {
        MediaV { channel_name: self.channel_name@ }
    }
}

impl View for Mutuals {
    type V = MutualsV;

    open spec fn view(&self) -> MutualsV {
        MutualsV {
            home_wins: self.home_wins as int,
            draws: self.draws as int,
            away_wins: self.away_wins as int,
        }
    }
}

impl View for ProviderIds {
    type V = ProviderIdsV;

    open spec fn view(&self) -> ProviderIdsV {
        ProviderIdsV { provider: self.provider@, id: self.id@ }
    }
}

impl View for Match {
    type V = MatchV;

    open spec fn view(&self) -> MatchV {
        MatchV {
            participants: (self.participants.0@, self.participants.1@),
            league_table: self.league_table@,
            media: match self.media {
                Some(v) => Some(v@.map_values(|m: Media| m@)),
                None => None,
            },
            mutuals: self.mutuals@,
        }
    }
}

impl View for DrawEvent {
    type V = DrawEventV;

    open spec fn view(&self) -> DrawEventV {
        DrawEventV {
            event_description: self.event_description@,
            odds: self.odds@,
            svenska_folket: self.svenska_folket@,
            tio_tidningars_tips: match self.tio_tidningars_tips {
                Some(t) => Some(t@),
                None => None,
            },
            game: self.game@,
            provider_ids: match self.provider_ids {
                Some(v) => Some(v@.map_values(|p: ProviderIds| p@)),
                None => None,
            },
        }
    }
}

impl View for PoolRound {
    type V = PoolRoundV;

    open spec fn view(&self) -> PoolRoundV {
        PoolRoundV {
            week: self.week@,
            revenue: self.revenue@,
            events: self.events@.map_values(|e: DrawEvent| e@),
        }
    }
}

impl View for SchemaError {
    type V = SchemaErrV;

    open spec fn view(&self) -> SchemaErrV {
        match self {
            SchemaError::MissingField(name) => SchemaErrV::MissingField(name@),
            SchemaError::TypeMismatch(name, expected, actual) => SchemaErrV::TypeMismatch(
                name@,
                *expected,
                *actual,
            ),
            SchemaError::TruncatedFeed => SchemaErrV::TruncatedFeed,
        }
    }
}

impl View for IngestError {
    type V = IngestErrV;

    open spec fn view(&self) -> IngestErrV {
        match self {
            IngestError::Unavailable => IngestErrV::Unavailable,
            IngestError::InvalidPayload => IngestErrV::InvalidPayload,
            IngestError::Schema(e) => IngestErrV::Schema(e@),
        }
    }
}

} // verus!
