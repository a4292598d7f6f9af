//! Decoding a feed document into a [`PoolRound`].
//!
//! The feed document is shaped
//! `{ draws: [ { drawComment, currentNetSale, drawEvents: [...] } ] }`;
//! decoding reads the first draw and exactly the first thirteen draw
//! events, and fails with a [`SchemaError`] when a required member is
//! absent, a member has the wrong JSON kind, or fewer than thirteen
//! events stand at the expected path.  Decoding either yields a whole
//! round or fails; no partial round is ever produced.
//!
//! Every decoder has a spec twin (`decode_spec` for `decode`, and so
//! on) that pins the result, error cases included, for every input.

use vstd::prelude::*;
use vstd::string::*;
use crate::json::{Json, JsonField, JsonKind, kind_of, spec_get, get_field, parse_json_text,
    json_tree_of};
use crate::stryktipset::{Odds, OddsV, SvenskaFolket, SvenskaFolketV, TioTidningarsTips,
    TioTidningarsTipsV, Latest, LatestV, Participants, ParticipantsV, TeamStats, TeamStatsV,
    LeagueTable, LeagueTableV, Media, MediaV, Mutuals, MutualsV, ProviderIds, ProviderIdsV, Match,
    MatchV, DrawEvent, DrawEventV, PoolRound, PoolRoundV, SchemaError, SchemaErrV, IngestError,
    IngestErrV, EVENT_COUNT};

verus! {

/// A decode result seen through the views of its value and its error.
pub open spec fn result_view<T: View, E: View>(r: Result<T, E>) -> Result<T::V, E::V> {
    match r {
        Ok(t) => Ok(t@),
        Err(e) => Err(e@),
    }
}

// ---------------------------------------------------------------------
// Reading one member of an object.
// ---------------------------------------------------------------------

/// A required string member: absent is a missing field, any other
/// kind, `null` included, a type mismatch.
pub open spec fn spec_string_field(fields: Seq<JsonField>, name: Seq<char>) -> Result<
    Seq<char>,
    SchemaErrV,
> {
    match spec_get(fields, name) {
        Option::None => Err(SchemaErrV::MissingField(name)),
        Option::Some(Json::Str(s)) => Ok(s@),
        Option::Some(v) => Err(SchemaErrV::TypeMismatch(name, JsonKind::Str, kind_of(v))),
    }
}

/// A null-tolerant string member: a JSON `null` reads as the literal
/// text `"Null"`, the feed's display convention.
pub open spec fn spec_string_or_null_field(fields: Seq<JsonField>, name: Seq<char>) -> Result<
    Seq<char>,
    SchemaErrV,
> {
    match spec_get(fields, name) {
        Option::None => Err(SchemaErrV::MissingField(name)),
        Option::Some(Json::Str(s)) => Ok(s@),
        Option::Some(Json::Null) => Ok("Null"@),
        Option::Some(v) => Err(SchemaErrV::TypeMismatch(name, JsonKind::Str, kind_of(v))),
    }
}

/// A required integer member.
pub open spec fn spec_int_field(fields: Seq<JsonField>, name: Seq<char>) -> Result<
    i64,
    SchemaErrV,
> {
    match spec_get(fields, name) {
        Option::None => Err(SchemaErrV::MissingField(name)),
        Option::Some(Json::Int(i)) => Ok(i),
        Option::Some(v) => Err(SchemaErrV::TypeMismatch(name, JsonKind::Int, kind_of(v))),
    }
}

/// A required object member.
pub open spec fn spec_obj_field(fields: Seq<JsonField>, name: Seq<char>) -> Result<
    Seq<JsonField>,
    SchemaErrV,
> {
    match spec_get(fields, name) {
        Option::None => Err(SchemaErrV::MissingField(name)),
        Option::Some(Json::Obj(f)) => Ok(f@),
        Option::Some(v) => Err(SchemaErrV::TypeMismatch(name, JsonKind::Obj, kind_of(v))),
    }
}

/// A required array member.
pub open spec fn spec_arr_field(fields: Seq<JsonField>, name: Seq<char>) -> Result<
    Seq<Json>,
    SchemaErrV,
> {
    match spec_get(fields, name) {
        Option::None => Err(SchemaErrV::MissingField(name)),
        Option::Some(Json::Arr(a)) => Ok(a@),
        Option::Some(v) => Err(SchemaErrV::TypeMismatch(name, JsonKind::Arr, kind_of(v))),
    }
}

fn get_string(fields: &Vec<JsonField>, name: &String) -> (r: Result<String, SchemaError>)
    ensures
        result_view(r) == spec_string_field(fields@, name@),
{
    match get_field(fields, name) {
        Option::None => Err(SchemaError::MissingField(name.clone())),
        Option::Some(j) => match j {
            Json::Str(s) => Ok(s.clone()),
            _ => Err(SchemaError::TypeMismatch(name.clone(), JsonKind::Str, j.kind())),
        },
    }
}

fn get_string_or_null(fields: &Vec<JsonField>, name: &String) -> (r: Result<String, SchemaError>)
    ensures
        result_view(r) == spec_string_or_null_field(fields@, name@),
{
    match get_field(fields, name) {
        Option::None => Err(SchemaError::MissingField(name.clone())),
        Option::Some(j) => match j {
            Json::Str(s) => Ok(s.clone()),
            Json::Null => Ok(String::from_str("Null")),
            _ => Err(SchemaError::TypeMismatch(name.clone(), JsonKind::Str, j.kind())),
        },
    }
}

fn get_int(fields: &Vec<JsonField>, name: &String) -> (r: Result<i64, SchemaError>)
    ensures
        result_view(r) == spec_int_field(fields@, name@),
{
    match get_field(fields, name) {
        Option::None => Err(SchemaError::MissingField(name.clone())),
        Option::Some(j) => match j {
            Json::Int(i) => Ok(*i),
            _ => Err(SchemaError::TypeMismatch(name.clone(), JsonKind::Int, j.kind())),
        },
    }
}

fn get_obj<'a>(fields: &'a Vec<JsonField>, name: &String) -> (r: Result<
    &'a Vec<JsonField>,
    SchemaError,
>)
    ensures
        match r {
            Ok(v) => spec_obj_field(fields@, name@) == Ok::<Seq<JsonField>, SchemaErrV>(v@),
            Err(e) => spec_obj_field(fields@, name@) == Err::<Seq<JsonField>, SchemaErrV>(e@),
        },
{
    match get_field(fields, name) {
        Option::None => Err(SchemaError::MissingField(name.clone())),
        Option::Some(j) => match j {
            Json::Obj(f) => Ok(f),
            _ => Err(SchemaError::TypeMismatch(name.clone(), JsonKind::Obj, j.kind())),
        },
    }
}

fn get_arr<'a>(fields: &'a Vec<JsonField>, name: &String) -> (r: Result<&'a Vec<Json>, SchemaError>)
    ensures
        match r {
            Ok(v) => spec_arr_field(fields@, name@) == Ok::<Seq<Json>, SchemaErrV>(v@),
            Err(e) => spec_arr_field(fields@, name@) == Err::<Seq<Json>, SchemaErrV>(e@),
        },
{
    match get_field(fields, name) {
        Option::None => Err(SchemaError::MissingField(name.clone())),
        Option::Some(j) => match j {
            Json::Arr(a) => Ok(a),
            _ => Err(SchemaError::TypeMismatch(name.clone(), JsonKind::Arr, j.kind())),
        },
    }
}

// ---------------------------------------------------------------------
// Leaf records.
// ---------------------------------------------------------------------

/// The three odds strings, each null-tolerant.
pub open spec fn decode_odds_spec(fields: Seq<JsonField>) -> Result<OddsV, SchemaErrV> {
    match spec_string_or_null_field(fields, "one"@) {
        Err(e) => Err(e),
        Ok(one) => match spec_string_or_null_field(fields, "x"@) {
            Err(e) => Err(e),
            Ok(x) => match spec_string_or_null_field(fields, "two"@) {
                Err(e) => Err(e),
                Ok(two) => Ok(OddsV { one, x, two }),
            },
        },
    }
}

pub fn decode_odds(fields: &Vec<JsonField>) -> (r: Result<Odds, SchemaError>)
    ensures
        result_view(r) == decode_odds_spec(fields@),
{
    let k_one = String::from_str("one");
    let one = match get_string_or_null(fields, &k_one) {
        Ok(v) => v,
        Err(e) => return Err(e),
    };
    let k_x = String::from_str("x");
    let x = match get_string_or_null(fields, &k_x) {
        Ok(v) => v,
        Err(e) => return Err(e),
    };
    let k_two = String::from_str("two");
    let two = match get_string_or_null(fields, &k_two) {
        Ok(v) => v,
        Err(e) => return Err(e),
    };
    Ok(Odds { one, x, two })
}

/// The public's three percentage strings; the feed never sends these
/// as `null`, so they are required outright.
pub open spec fn decode_folket_spec(fields: Seq<JsonField>) -> Result<SvenskaFolketV, SchemaErrV> {
    match spec_string_field(fields, "one"@) {
        Err(e) => Err(e),
        Ok(one) => match spec_string_field(fields, "x"@) {
            Err(e) => Err(e),
            Ok(x) => match spec_string_field(fields, "two"@) {
                Err(e) => Err(e),
                Ok(two) => Ok(SvenskaFolketV { one, x, two }),
            },
        },
    }
}

pub fn decode_folket(fields: &Vec<JsonField>) -> (r: Result<SvenskaFolket, SchemaError>)
    ensures
        result_view(r) == decode_folket_spec(fields@),
{
    let k_one = String::from_str("one");
    let one = match get_string(fields, &k_one) {
        Ok(v) => v,
        Err(e) => return Err(e),
    };
    let k_x = String::from_str("x");
    let x = match get_string(fields, &k_x) {
        Ok(v) => v,
        Err(e) => return Err(e),
    };
    let k_two = String::from_str("two");
    let two = match get_string(fields, &k_two) {
        Ok(v) => v,
        Err(e) => return Err(e),
    };
    Ok(SvenskaFolket { one, x, two })
}

/// The three press-tip counts.
pub open spec fn decode_tips_spec(fields: Seq<JsonField>) -> Result<
    TioTidningarsTipsV,
    SchemaErrV,
> {
    match spec_int_field(fields, "one"@) {
        Err(e) => Err(e),
        Ok(one) => match spec_int_field(fields, "x"@) {
            Err(e) => Err(e),
            Ok(x) => match spec_int_field(fields, "two"@) {
                Err(e) => Err(e),
                Ok(two) => Ok(
                    TioTidningarsTipsV { one: one as int, x: x as int, two: two as int },
                ),
            },
        },
    }
}

pub fn decode_tips(fields: &Vec<JsonField>) -> (r: Result<TioTidningarsTips, SchemaError>)
    ensures
        result_view(r) == decode_tips_spec(fields@),
{
    let k_one = String::from_str("one");
    let one = match get_int(fields, &k_one) {
        Ok(v) => v,
        Err(e) => return Err(e),
    };
    let k_x = String::from_str("x");
    let x = match get_int(fields, &k_x) {
        Ok(v) => v,
        Err(e) => return Err(e),
    };
    let k_two = String::from_str("two");
    let two = match get_int(fields, &k_two) {
        Ok(v) => v,
        Err(e) => return Err(e),
    };
    Ok(TioTidningarsTips { one, x, two })
}

/// The five form slots, keyed `"0"` to `"4"`.
pub open spec fn decode_latest_spec(fields: Seq<JsonField>) -> Result<LatestV, SchemaErrV> {
    match spec_string_field(fields, "0"@) {
        Err(e) => Err(e),
        Ok(zero) => match spec_string_field(fields, "1"@) {
            Err(e) => Err(e),
            Ok(one) => match spec_string_field(fields, "2"@) {
                Err(e) => Err(e),
                Ok(two) => match spec_string_field(fields, "3"@) {
                    Err(e) => Err(e),
                    Ok(three) => match spec_string_field(fields, "4"@) {
                        Err(e) => Err(e),
                        Ok(four) => Ok(LatestV { zero, one, two, three, four }),
                    },
                },
            },
        },
    }
}

pub fn decode_latest(fields: &Vec<JsonField>) -> (r: Result<Latest, SchemaError>)
    ensures
        result_view(r) == decode_latest_spec(fields@),
{
    let k0 = String::from_str("0");
    let zero = match get_string(fields, &k0) {
        Ok(v) => v,
        Err(e) => return Err(e),
    };
    let k1 = String::from_str("1");
    let one = match get_string(fields, &k1) {
        Ok(v) => v,
        Err(e) => return Err(e),
    };
    let k2 = String::from_str("2");
    let two = match get_string(fields, &k2) {
        Ok(v) => v,
        Err(e) => return Err(e),
    };
    let k3 = String::from_str("3");
    let three = match get_string(fields, &k3) {
        Ok(v) => v,
        Err(e) => return Err(e),
    };
    let k4 = String::from_str("4");
    let four = match get_string(fields, &k4) {
        Ok(v) => v,
        Err(e) => return Err(e),
    };
    Ok(Latest { zero, one, two, three, four })
}

/// One side's table entry: its position string.
pub open spec fn decode_team_stats_spec(fields: Seq<JsonField>) -> Result<TeamStatsV, SchemaErrV> {
    match spec_string_field(fields, "position"@) {
        Err(e) => Err(e),
        Ok(position) => Ok(TeamStatsV { position }),
    }
}

pub fn decode_team_stats(fields: &Vec<JsonField>) -> (r: Result<TeamStats, SchemaError>)
    ensures
        result_view(r) == decode_team_stats_spec(fields@),
{
    let k = String::from_str("position");
    let position = match get_string(fields, &k) {
        Ok(v) => v,
        Err(e) => return Err(e),
    };
    Ok(TeamStats { position })
}

/// Both sides' table entries.
pub open spec fn decode_league_table_spec(fields: Seq<JsonField>) -> Result<
    LeagueTableV,
    SchemaErrV,
> {
    match spec_obj_field(fields, "homeTeam"@) {
        Err(e) => Err(e),
        Ok(home) => match decode_team_stats_spec(home) {
            Err(e) => Err(e),
            Ok(home_team) => match spec_obj_field(fields, "awayTeam"@) {
                Err(e) => Err(e),
                Ok(away) => match decode_team_stats_spec(away) {
                    Err(e) => Err(e),
                    Ok(away_team) => Ok(LeagueTableV { home_team, away_team }),
                },
            },
        },
    }
}

pub fn decode_league_table(fields: &Vec<JsonField>) -> (r: Result<LeagueTable, SchemaError>)
    ensures
        result_view(r) == decode_league_table_spec(fields@),
{
    let k_home = String::from_str("homeTeam");
    let home = match get_obj(fields, &k_home) {
        Ok(v) => v,
        Err(e) => return Err(e),
    };
    let home_team = match decode_team_stats(home) {
        Ok(v) => v,
        Err(e) => return Err(e),
    };
    let k_away = String::from_str("awayTeam");
    let away = match get_obj(fields, &k_away) {
        Ok(v) => v,
        Err(e) => return Err(e),
    };
    let away_team = match decode_team_stats(away) {
        Ok(v) => v,
        Err(e) => return Err(e),
    };
    Ok(LeagueTable { home_team, away_team })
}

/// The mutual-history counts.
pub open spec fn decode_mutuals_spec(fields: Seq<JsonField>) -> Result<MutualsV, SchemaErrV> {
    match spec_int_field(fields, "homeWins"@) {
        Err(e) => Err(e),
        Ok(home_wins) => match spec_int_field(fields, "draws"@) {
            Err(e) => Err(e),
            Ok(draws) => match spec_int_field(fields, "awayWins"@) {
                Err(e) => Err(e),
                Ok(away_wins) => Ok(
                    MutualsV {
                        home_wins: home_wins as int,
                        draws: draws as int,
                        away_wins: away_wins as int,
                    },
                ),
            },
        },
    }
}

pub fn decode_mutuals(fields: &Vec<JsonField>) -> (r: Result<Mutuals, SchemaError>)
    ensures
        result_view(r) == decode_mutuals_spec(fields@),
{
    let k_home = String::from_str("homeWins");
    let home_wins = match get_int(fields, &k_home) {
        Ok(v) => v,
        Err(e) => return Err(e),
    };
    let k_draws = String::from_str("draws");
    let draws = match get_int(fields, &k_draws) {
        Ok(v) => v,
        Err(e) => return Err(e),
    };
    let k_away = String::from_str("awayWins");
    let away_wins = match get_int(fields, &k_away) {
        Ok(v) => v,
        Err(e) => return Err(e),
    };
    Ok(Mutuals { home_wins, draws, away_wins })
}

/// One participant: name, goal average and recent form.
pub open spec fn decode_participant_spec(j: Json) -> Result<ParticipantsV, SchemaErrV> {
    match j {
        Json::Obj(f) => match spec_string_field(f@, "name"@) {
            Err(e) => Err(e),
            Ok(name) => match spec_string_field(f@, "goalAvg"@) {
                Err(e) => Err(e),
                Ok(goal_avg) => match spec_obj_field(f@, "latest"@) {
                    Err(e) => Err(e),
                    Ok(latest_fields) => match decode_latest_spec(latest_fields) {
                        Err(e) => Err(e),
                        Ok(latest) => Ok(ParticipantsV { name, goal_avg, latest }),
                    },
                },
            },
        },
        _ => Err(SchemaErrV::TypeMismatch("participants"@, JsonKind::Obj, kind_of(j))),
    }
}

pub fn decode_participant(j: &Json) -> (r: Result<Participants, SchemaError>)
    ensures
        result_view(r) == decode_participant_spec(*j),
{
    match j {
        Json::Obj(f) => {
            let k_name = String::from_str("name");
            let name = match get_string(f, &k_name) {
                Ok(v) => v,
                Err(e) => return Err(e),
            };
            let k_avg = String::from_str("goalAvg");
            let goal_avg = match get_string(f, &k_avg) {
                Ok(v) => v,
                Err(e) => return Err(e),
            };
            let k_latest = String::from_str("latest");
            let latest_fields = match get_obj(f, &k_latest) {
                Ok(v) => v,
                Err(e) => return Err(e),
            };
            let latest = match decode_latest(latest_fields) {
                Ok(v) => v,
                Err(e) => return Err(e),
            };
            Ok(Participants { name, goal_avg, latest })
        },
        _ => Err(
            SchemaError::TypeMismatch(String::from_str("participants"), JsonKind::Obj, j.kind()),
        ),
    }
}

// ---------------------------------------------------------------------
// Optional members and lists.
// ---------------------------------------------------------------------

/// An option seen through the view of its value.
pub open spec fn opt_view<T: View>(o: Option<T>) -> Option<T::V> {
    match o {
        Option::Some(t) => Option::Some(t@),
        Option::None => Option::None,
    }
}

/// The optional press-tips member: absent or `null` is no tip sheet,
/// anything but an object a type mismatch.
pub open spec fn spec_tips_field(fields: Seq<JsonField>) -> Result<
    Option<TioTidningarsTipsV>,
    SchemaErrV,
> {
    match spec_get(fields, "tioTidningarsTips"@) {
        Option::None => Ok(Option::None),
        Option::Some(Json::Null) => Ok(Option::None),
        Option::Some(Json::Obj(f)) => match decode_tips_spec(f@) {
            Err(e) => Err(e),
            Ok(t) => Ok(Option::Some(t)),
        },
        Option::Some(v) => Err(
            SchemaErrV::TypeMismatch("tioTidningarsTips"@, JsonKind::Obj, kind_of(v)),
        ),
    }
}

pub fn get_tips_field(fields: &Vec<JsonField>) -> (r: Result<
    Option<TioTidningarsTips>,
    SchemaError,
>)
    ensures
        match r {
            Ok(v) => spec_tips_field(fields@) == Ok::<_, SchemaErrV>(opt_view(v)),
            Err(e) => spec_tips_field(fields@) == Err::<Option<TioTidningarsTipsV>, _>(e@),
        },
{
    let k = String::from_str("tioTidningarsTips");
    match get_field(fields, &k) {
        Option::None => Ok(None),
        Option::Some(j) => match j {
            Json::Null => Ok(None),
            Json::Obj(f) => match decode_tips(f) {
                Ok(t) => Ok(Some(t)),
                Err(e) => Err(e),
            },
            _ => Err(SchemaError::TypeMismatch(k, JsonKind::Obj, j.kind())),
        },
    }
}

/// The first `n` media entries: each an object whose `channelName` is
/// null-tolerant.
pub open spec fn decode_media_list_spec(arr: Seq<Json>, n: int) -> Result<Seq<MediaV>, SchemaErrV>
    decreases n,
{
    if n <= 0 {
        Ok(Seq::empty())
    } else {
        match decode_media_list_spec(arr, n - 1) {
            Err(e) => Err(e),
            Ok(pre) => match arr[n - 1] {
                Json::Obj(f) => match spec_string_or_null_field(f@, "channelName"@) {
                    Err(e) => Err(e),
                    Ok(channel_name) => Ok(pre.push(MediaV { channel_name })),
                },
                _ => Err(SchemaErrV::TypeMismatch("media"@, JsonKind::Obj, kind_of(arr[n - 1]))),
            },
        }
    }
}

/// A failed prefix fails the whole list, with the same error.
proof fn lemma_media_list_err(arr: Seq<Json>, i: int, n: int)
    requires
        0 <= i <= n,
        decode_media_list_spec(arr, i) is Err,
    ensures
        decode_media_list_spec(arr, n) == decode_media_list_spec(arr, i),
    decreases n - i,
{
    if i < n {
        lemma_media_list_err(arr, i, n - 1);
    }
}

#[verifier::loop_isolation(false)]
fn decode_media_list(arr: &Vec<Json>) -> (r: Result<Vec<Media>, SchemaError>)
    ensures
        match r {
            Ok(v) => decode_media_list_spec(arr@, arr@.len() as int) == Ok::<_, SchemaErrV>(
                v@.map_values(|m: Media| m@),
            ),
            Err(e) => decode_media_list_spec(arr@, arr@.len() as int) == Err::<Seq<MediaV>, _>(e@),
        },
{
    let n = arr.len();
    let mut out: Vec<Media> = Vec::new();
    proof {
        assert(out@.map_values(|m: Media| m@) =~= Seq::<MediaV>::empty());
    }
    let mut i: usize = 0;
    while i < n
        invariant
            0 <= i <= n,
            decode_media_list_spec(arr@, i as int) == Ok::<_, SchemaErrV>(
                out@.map_values(|m: Media| m@),
            ),
        decreases n - i,
    {
        let ghost prev = out@.map_values(|m: Media| m@);
        match &arr[i] {
            Json::Obj(f) => {
                let k = String::from_str("channelName");
                match get_string_or_null(f, &k) {
                    Ok(channel_name) => {
                        out.push(Media { channel_name });
                        proof {
                            assert(out@.map_values(|m: Media| m@) =~= prev.push(
                                MediaV { channel_name: channel_name@ },
                            ));
                        }
                    },
                    Err(e) => {
                        proof {
                            lemma_media_list_err(arr@, i as int + 1, n as int);
                        }
                        return Err(e);
                    },
                }
            },
            _ => {
                let e = SchemaError::TypeMismatch(
                    String::from_str("media"),
                    JsonKind::Obj,
                    arr[i].kind(),
                );
                proof {
                    lemma_media_list_err(arr@, i as int + 1, n as int);
                }
                return Err(e);
            },
        }
        i += 1;
    }
    Ok(out)
}

/// The optional media member: absent or `null` is no broadcast list.
pub open spec fn spec_media_field(fields: Seq<JsonField>) -> Result<
    Option<Seq<MediaV>>,
    SchemaErrV,
> {
    match spec_get(fields, "media"@) {
        Option::None => Ok(Option::None),
        Option::Some(Json::Null) => Ok(Option::None),
        Option::Some(Json::Arr(a)) => match decode_media_list_spec(a@, a@.len() as int) {
            Err(e) => Err(e),
            Ok(l) => Ok(Option::Some(l)),
        },
        Option::Some(v) => Err(SchemaErrV::TypeMismatch("media"@, JsonKind::Arr, kind_of(v))),
    }
}

pub fn get_media_field(fields: &Vec<JsonField>) -> (r: Result<Option<Vec<Media>>, SchemaError>)
    ensures
        match r {
            Ok(v) => spec_media_field(fields@) == Ok::<_, SchemaErrV>(
                match v {
                    Option::Some(l) => Option::Some(l@.map_values(|m: Media| m@)),
                    Option::None => Option::None,
                },
            ),
            Err(e) => spec_media_field(fields@) == Err::<Option<Seq<MediaV>>, _>(e@),
        },
{
    let k = String::from_str("media");
    match get_field(fields, &k) {
        Option::None => Ok(None),
        Option::Some(j) => match j {
            Json::Null => Ok(None),
            Json::Arr(a) => match decode_media_list(a) {
                Ok(l) => Ok(Some(l)),
                Err(e) => Err(e),
            },
            _ => Err(SchemaError::TypeMismatch(k, JsonKind::Arr, j.kind())),
        },
    }
}

/// The first `n` provider entries: provider and id, both null-tolerant.
pub open spec fn decode_provider_list_spec(arr: Seq<Json>, n: int) -> Result<
    Seq<ProviderIdsV>,
    SchemaErrV,
>
    decreases n,
{
    if n <= 0 {
        Ok(Seq::empty())
    } else {
        match decode_provider_list_spec(arr, n - 1) {
            Err(e) => Err(e),
            Ok(pre) => match arr[n - 1] {
                Json::Obj(f) => match spec_string_or_null_field(f@, "provider"@) {
                    Err(e) => Err(e),
                    Ok(provider) => match spec_string_or_null_field(f@, "id"@) {
                        Err(e) => Err(e),
                        Ok(id) => Ok(pre.push(ProviderIdsV { provider, id })),
                    },
                },
                _ => Err(
                    SchemaErrV::TypeMismatch("providerIds"@, JsonKind::Obj, kind_of(arr[n - 1])),
                ),
            },
        }
    }
}

/// A failed prefix fails the whole list, with the same error.
proof fn lemma_provider_list_err(arr: Seq<Json>, i: int, n: int)
    requires
        0 <= i <= n,
        decode_provider_list_spec(arr, i) is Err,
    ensures
        decode_provider_list_spec(arr, n) == decode_provider_list_spec(arr, i),
    decreases n - i,
{
    if i < n {
        lemma_provider_list_err(arr, i, n - 1);
    }
}

#[verifier::loop_isolation(false)]
fn decode_provider_list(arr: &Vec<Json>) -> (r: Result<Vec<ProviderIds>, SchemaError>)
    ensures
        match r {
            Ok(v) => decode_provider_list_spec(arr@, arr@.len() as int) == Ok::<_, SchemaErrV>(
                v@.map_values(|p: ProviderIds| p@),
            ),
            Err(e) => decode_provider_list_spec(arr@, arr@.len() as int) == Err::<
                Seq<ProviderIdsV>,
                _,
            >(e@),
        },
{
    let n = arr.len();
    let mut out: Vec<ProviderIds> = Vec::new();
    proof {
        assert(out@.map_values(|p: ProviderIds| p@) =~= Seq::<ProviderIdsV>::empty());
    }
    let mut i: usize = 0;
    while i < n
        invariant
            0 <= i <= n,
            decode_provider_list_spec(arr@, i as int) == Ok::<_, SchemaErrV>(
                out@.map_values(|p: ProviderIds| p@),
            ),
        decreases n - i,
    {
        let ghost prev = out@.map_values(|p: ProviderIds| p@);
        match &arr[i] {
            Json::Obj(f) => {
                let k_provider = String::from_str("provider");
                let provider = match get_string_or_null(f, &k_provider) {
                    Ok(v) => v,
                    Err(e) => {
                        proof {
                            lemma_provider_list_err(arr@, i as int + 1, n as int);
                        }
                        return Err(e);
                    },
                };
                let k_id = String::from_str("id");
                let id = match get_string_or_null(f, &k_id) {
                    Ok(v) => v,
                    Err(e) => {
                        proof {
                            lemma_provider_list_err(arr@, i as int + 1, n as int);
                        }
                        return Err(e);
                    },
                };
                out.push(ProviderIds { provider, id });
                proof {
                    assert(out@.map_values(|p: ProviderIds| p@) =~= prev.push(
                        ProviderIdsV { provider: provider@, id: id@ },
                    ));
                }
            },
            _ => {
                let e = SchemaError::TypeMismatch(
                    String::from_str("providerIds"),
                    JsonKind::Obj,
                    arr[i].kind(),
                );
                proof {
                    lemma_provider_list_err(arr@, i as int + 1, n as int);
                }
                return Err(e);
            },
        }
        i += 1;
    }
    Ok(out)
}

/// The optional provider-ids member.
pub open spec fn spec_provider_field(fields: Seq<JsonField>) -> Result<
    Option<Seq<ProviderIdsV>>,
    SchemaErrV,
> {
    match spec_get(fields, "providerIds"@) {
        Option::None => Ok(Option::None),
        Option::Some(Json::Null) => Ok(Option::None),
        Option::Some(Json::Arr(a)) => match decode_provider_list_spec(a@, a@.len() as int) {
            Err(e) => Err(e),
            Ok(l) => Ok(Option::Some(l)),
        },
        Option::Some(v) => Err(SchemaErrV::TypeMismatch("providerIds"@, JsonKind::Arr, kind_of(v))),
    }
}

pub fn get_provider_field(fields: &Vec<JsonField>) -> (r: Result<
    Option<Vec<ProviderIds>>,
    SchemaError,
>)
    ensures
        match r {
            Ok(v) => spec_provider_field(fields@) == Ok::<_, SchemaErrV>(
                match v {
                    Option::Some(l) => Option::Some(l@.map_values(|p: ProviderIds| p@)),
                    Option::None => Option::None,
                },
            ),
            Err(e) => spec_provider_field(fields@) == Err::<Option<Seq<ProviderIdsV>>, _>(e@),
        },
{
    let k = String::from_str("providerIds");
    match get_field(fields, &k) {
        Option::None => Ok(None),
        Option::Some(j) => match j {
            Json::Null => Ok(None),
            Json::Arr(a) => match decode_provider_list(a) {
                Ok(l) => Ok(Some(l)),
                Err(e) => Err(e),
            },
            _ => Err(SchemaError::TypeMismatch(k, JsonKind::Arr, j.kind())),
        },
    }
}

// ---------------------------------------------------------------------
// Match, event, round.
// ---------------------------------------------------------------------

/// The home and away participants: the first two entries of the
/// `participants` array, in that order; fewer than two is a missing
/// field, any further entries are ignored.
pub open spec fn spec_participants_field(fields: Seq<JsonField>) -> Result<
    (ParticipantsV, ParticipantsV),
    SchemaErrV,
> {
    match spec_arr_field(fields, "participants"@) {
        Err(e) => Err(e),
        Ok(arr) => if arr.len() < 2 {
            Err(SchemaErrV::MissingField("participants"@))
        } else {
            match decode_participant_spec(arr[0]) {
                Err(e) => Err(e),
                Ok(home) => match decode_participant_spec(arr[1]) {
                    Err(e) => Err(e),
                    Ok(away) => Ok((home, away)),
                },
            }
        },
    }
}

pub fn get_participants_field(fields: &Vec<JsonField>) -> (r: Result<
    (Participants, Participants),
    SchemaError,
>)
    ensures
        match r {
            Ok(p) => spec_participants_field(fields@) == Ok::<_, SchemaErrV>((p.0@, p.1@)),
            Err(e) => spec_participants_field(fields@) == Err::<(ParticipantsV, ParticipantsV), _>(
                e@,
            ),
        },
{
    let k = String::from_str("participants");
    let arr = match get_arr(fields, &k) {
        Ok(v) => v,
        Err(e) => return Err(e),
    };
    if arr.len() < 2 {
        return Err(SchemaError::MissingField(k));
    }
    let home = match decode_participant(&arr[0]) {
        Ok(v) => v,
        Err(e) => return Err(e),
    };
    let away = match decode_participant(&arr[1]) {
        Ok(v) => v,
        Err(e) => return Err(e),
    };
    Ok((home, away))
}

/// One match: participants, league table, broadcasts, mutual history.
pub open spec fn decode_match_spec(fields: Seq<JsonField>) -> Result<MatchV, SchemaErrV> {
    match spec_participants_field(fields) {
        Err(e) => Err(e),
        Ok(participants) => match spec_obj_field(fields, "leagueTable"@) {
            Err(e) => Err(e),
            Ok(lt) => match decode_league_table_spec(lt) {
                Err(e) => Err(e),
                Ok(league_table) => match spec_media_field(fields) {
                    Err(e) => Err(e),
                    Ok(media) => match spec_obj_field(fields, "mutuals"@) {
                        Err(e) => Err(e),
                        Ok(mu) => match decode_mutuals_spec(mu) {
                            Err(e) => Err(e),
                            Ok(mutuals) => Ok(
                                MatchV { participants, league_table, media, mutuals },
                            ),
                        },
                    },
                },
            },
        },
    }
}

pub fn decode_match(fields: &Vec<JsonField>) -> (r: Result<Match, SchemaError>)
    ensures
        result_view(r) == decode_match_spec(fields@),
{
    let participants = match get_participants_field(fields) {
        Ok(v) => v,
        Err(e) => return Err(e),
    };
    let k_lt = String::from_str("leagueTable");
    let lt = match get_obj(fields, &k_lt) {
        Ok(v) => v,
        Err(e) => return Err(e),
    };
    let league_table = match decode_league_table(lt) {
        Ok(v) => v,
        Err(e) => return Err(e),
    };
    let media = match get_media_field(fields) {
        Ok(v) => v,
        Err(e) => return Err(e),
    };
    let k_mu = String::from_str("mutuals");
    let mu = match get_obj(fields, &k_mu) {
        Ok(v) => v,
        Err(e) => return Err(e),
    };
    let mutuals = match decode_mutuals(mu) {
        Ok(v) => v,
        Err(e) => return Err(e),
    };
    Ok(Match { participants, league_table, media, mutuals })
}

/// One draw event.
pub open spec fn decode_event_spec(j: Json) -> Result<DrawEventV, SchemaErrV> {
    match j {
        Json::Obj(f) => decode_event_fields_spec(f@),
        _ => Err(SchemaErrV::TypeMismatch("drawEvents"@, JsonKind::Obj, kind_of(j))),
    }
}

pub open spec fn decode_event_fields_spec(f: Seq<JsonField>) -> Result<DrawEventV, SchemaErrV> {
    match spec_string_field(f, "eventDescription"@) {
        Err(e) => Err(e),
        Ok(event_description) => match spec_obj_field(f, "odds"@) {
            Err(e) => Err(e),
            Ok(of) => match decode_odds_spec(of) {
                Err(e) => Err(e),
                Ok(odds) => match spec_obj_field(f, "svenskaFolket"@) {
                    Err(e) => Err(e),
                    Ok(sf) => match decode_folket_spec(sf) {
                        Err(e) => Err(e),
                        Ok(svenska_folket) => match spec_tips_field(f) {
                            Err(e) => Err(e),
                            Ok(tio_tidningars_tips) => match spec_obj_field(f, "match"@) {
                                Err(e) => Err(e),
                                Ok(mf) => match decode_match_spec(mf) {
                                    Err(e) => Err(e),
                                    Ok(game) => match spec_provider_field(f) {
                                        Err(e) => Err(e),
                                        Ok(provider_ids) => Ok(
                                            DrawEventV {
                                                event_description,
                                                odds,
                                                svenska_folket,
                                                tio_tidningars_tips,
                                                game,
                                                provider_ids,
                                            },
                                        ),
                                    },
                                },
                            },
                        },
                    },
                },
            },
        },
    }
}

pub fn decode_event(j: &Json) -> (r: Result<DrawEvent, SchemaError>)
    ensures
        result_view(r) == decode_event_spec(*j),
{
    let f = match j {
        Json::Obj(f) => f,
        _ => {
            return Err(
                SchemaError::TypeMismatch(String::from_str("drawEvents"), JsonKind::Obj, j.kind()),
            );
        },
    };
    let k_desc = String::from_str("eventDescription");
    let event_description = match get_string(f, &k_desc) {
        Ok(v) => v,
        Err(e) => return Err(e),
    };
    let k_odds = String::from_str("odds");
    let of = match get_obj(f, &k_odds) {
        Ok(v) => v,
        Err(e) => return Err(e),
    };
    let odds = match decode_odds(of) {
        Ok(v) => v,
        Err(e) => return Err(e),
    };
    let k_folket = String::from_str("svenskaFolket");
    let sf = match get_obj(f, &k_folket) {
        Ok(v) => v,
        Err(e) => return Err(e),
    };
    let svenska_folket = match decode_folket(sf) {
        Ok(v) => v,
        Err(e) => return Err(e),
    };
    let tio_tidningars_tips = match get_tips_field(f) {
        Ok(v) => v,
        Err(e) => return Err(e),
    };
    let k_match = String::from_str("match");
    let mf = match get_obj(f, &k_match) {
        Ok(v) => v,
        Err(e) => return Err(e),
    };
    let game = match decode_match(mf) {
        Ok(v) => v,
        Err(e) => return Err(e),
    };
    let provider_ids = match get_provider_field(f) {
        Ok(v) => v,
        Err(e) => return Err(e),
    };
    Ok(
        DrawEvent {
            event_description,
            odds,
            svenska_folket,
            tio_tidningars_tips,
            game,
            provider_ids,
        },
    )
}

/// The first `n` draw events of the `drawEvents` array, in feed order.
pub open spec fn decode_events_spec(arr: Seq<Json>, n: int) -> Result<Seq<DrawEventV>, SchemaErrV>
    decreases n,
{
    if n <= 0 {
        Ok(Seq::empty())
    } else {
        match decode_events_spec(arr, n - 1) {
            Err(e) => Err(e),
            Ok(pre) => match decode_event_spec(arr[n - 1]) {
                Err(e) => Err(e),
                Ok(ev) => Ok(pre.push(ev)),
            },
        }
    }
}

/// A failed prefix fails the whole sequence, with the same error.
proof fn lemma_events_err(arr: Seq<Json>, i: int, n: int)
    requires
        0 <= i <= n,
        decode_events_spec(arr, i) is Err,
    ensures
        decode_events_spec(arr, n) == decode_events_spec(arr, i),
    decreases n - i,
{
    if i < n {
        lemma_events_err(arr, i, n - 1);
    }
}

/// A decoded event sequence holds exactly `n` events, the `i`-th
/// decoded from the `i`-th array entry: feed order is kept.
pub proof fn lemma_decode_events_ok(arr: Seq<Json>, n: int)
    requires
        0 <= n,
        decode_events_spec(arr, n) is Ok,
    ensures
        (decode_events_spec(arr, n)->Ok_0).len() == n,
        forall|i: int|
            0 <= i < n ==> decode_event_spec(arr[i]) == Ok::<DrawEventV, SchemaErrV>(
                (decode_events_spec(arr, n)->Ok_0)[i],
            ),
    decreases n,
{
    if n > 0 {
        lemma_decode_events_ok(arr, n - 1);
    }
}

#[verifier::loop_isolation(false)]
fn decode_events(arr: &Vec<Json>) -> (r: Result<Vec<DrawEvent>, SchemaError>)
    requires
        arr@.len() >= EVENT_COUNT,
    ensures
        match r {
            Ok(v) => decode_events_spec(arr@, EVENT_COUNT as int) == Ok::<_, SchemaErrV>(
                v@.map_values(|e: DrawEvent| e@),
            ),
            Err(e) => decode_events_spec(arr@, EVENT_COUNT as int) == Err::<Seq<DrawEventV>, _>(
                e@,
            ),
        },
{
    let mut out: Vec<DrawEvent> = Vec::new();
    proof {
        assert(out@.map_values(|e: DrawEvent| e@) =~= Seq::<DrawEventV>::empty());
    }
    let mut i: usize = 0;
    while i < EVENT_COUNT
        invariant
            0 <= i <= EVENT_COUNT,
            decode_events_spec(arr@, i as int) == Ok::<_, SchemaErrV>(
                out@.map_values(|e: DrawEvent| e@),
            ),
        decreases EVENT_COUNT - i,
    {
        let ghost prev = out@.map_values(|e: DrawEvent| e@);
        match decode_event(&arr[i]) {
            Ok(ev) => {
                let ghost evv = ev@;
                out.push(ev);
                proof {
                    assert(out@.map_values(|e: DrawEvent| e@) =~= prev.push(evv));
                }
            },
            Err(e) => {
                proof {
                    lemma_events_err(arr@, i as int + 1, EVENT_COUNT as int);
                }
                return Err(e);
            },
        }
        i += 1;
    }
    Ok(out)
}

/// One draw object: its label, revenue and thirteen events.
pub open spec fn decode_draw_spec(d: Seq<JsonField>) -> Result<PoolRoundV, SchemaErrV> {
    match spec_string_field(d, "drawComment"@) {
        Err(e) => Err(e),
        Ok(week) => match spec_string_field(d, "currentNetSale"@) {
            Err(e) => Err(e),
            Ok(revenue) => match spec_arr_field(d, "drawEvents"@) {
                Err(e) => Err(e),
                Ok(evs) => if evs.len() < EVENT_COUNT {
                    Err(SchemaErrV::TruncatedFeed)
                } else {
                    match decode_events_spec(evs, EVENT_COUNT as int) {
                        Err(e) => Err(e),
                        Ok(events) => Ok(PoolRoundV { week, revenue, events }),
                    }
                },
            },
        },
    }
}

/// What decoding a whole document yields: the single draw of the
/// `draws` array read into a round, or the first schema error met.
/// An empty `draws` array is a truncated feed; events beyond the
/// thirteenth are ignored.
pub open spec fn decode_spec(doc: Json) -> Result<PoolRoundV, SchemaErrV> {
    match doc {
        Json::Obj(fields) => match spec_arr_field(fields@, "draws"@) {
            Err(e) => Err(e),
            Ok(draws) => if draws.len() == 0 {
                Err(SchemaErrV::TruncatedFeed)
            } else {
                match draws[0] {
                    Json::Obj(d) => decode_draw_spec(d@),
                    _ => Err(SchemaErrV::TypeMismatch("draws"@, JsonKind::Obj, kind_of(draws[0]))),
                }
            },
        },
        _ => Err(SchemaErrV::TypeMismatch("document"@, JsonKind::Obj, kind_of(doc))),
    }
}

/// Decodes a feed document into one pool round: all thirteen events or
/// an error, exactly as `decode_spec` says, and a decoded round always
/// holds exactly thirteen events in feed order.
pub fn decode(doc: &Json) -> (r: Result<PoolRound, SchemaError>)
    ensures
        result_view(r) == decode_spec(*doc),
        r matches Ok(p) ==> p.wf(),
{
    let fields = match doc {
        Json::Obj(fields) => fields,
        _ => {
            return Err(
                SchemaError::TypeMismatch(String::from_str("document"), JsonKind::Obj, doc.kind()),
            );
        },
    };
    let k_draws = String::from_str("draws");
    let draws = match get_arr(fields, &k_draws) {
        Ok(v) => v,
        Err(e) => return Err(e),
    };
    if draws.len() == 0 {
        return Err(SchemaError::TruncatedFeed);
    }
    let d = match &draws[0] {
        Json::Obj(d) => d,
        _ => {
            return Err(
                SchemaError::TypeMismatch(
                    String::from_str("draws"),
                    JsonKind::Obj,
                    draws[0].kind(),
                ),
            );
        },
    };
    let k_week = String::from_str("drawComment");
    let week = match get_string(d, &k_week) {
        Ok(v) => v,
        Err(e) => return Err(e),
    };
    let k_rev = String::from_str("currentNetSale");
    let revenue = match get_string(d, &k_rev) {
        Ok(v) => v,
        Err(e) => return Err(e),
    };
    let k_events = String::from_str("drawEvents");
    let evs = match get_arr(d, &k_events) {
        Ok(v) => v,
        Err(e) => return Err(e),
    };
    if evs.len() < EVENT_COUNT {
        return Err(SchemaError::TruncatedFeed);
    }
    let events = match decode_events(evs) {
        Ok(v) => v,
        Err(e) => return Err(e),
    };
    proof {
        lemma_decode_events_ok(evs@, EVENT_COUNT as int);
    }
    Ok(PoolRound { week, revenue, events })
}

// ---------------------------------------------------------------------
// From document text to a round.
// ---------------------------------------------------------------------

/// What ingesting a document text yields: an invalid-payload error for
/// text that is not JSON, otherwise the decoded round or its schema
/// error.  A source that cannot be read at all never reaches this
/// point; the caller reports it as `IngestError::Unavailable`.
pub open spec fn decode_document_spec(text: Seq<char>) -> Result<PoolRoundV, IngestErrV> {
    match json_tree_of(text) {
        Option::None => Err(IngestErrV::InvalidPayload),
        Option::Some(doc) => match decode_spec(doc) {
            Ok(p) => Ok(p),
            Err(e) => Err(IngestErrV::Schema(e)),
        },
    }
}

/// Parses the document text as JSON and decodes the round out of it.
/// The text's JSON tree is `json_tree_of(text)`, taken on trust from
/// the parser; everything after the parse is verified against it.
pub fn decode_document(text: &str) -> (r: Result<PoolRound, IngestError>)
    ensures
        result_view(r) == decode_document_spec(text@),
        r matches Ok(p) ==> p.wf(),
{
    match parse_json_text(text) {
        Option::None => Err(IngestError::InvalidPayload),
        Option::Some(doc) => match decode(&doc) {
            Ok(p) => Ok(p),
            Err(e) => Err(IngestError::Schema(e)),
        },
    }
}

/// A JSON `null` in a null-tolerant string field decodes to the
/// literal text `"Null"`: not an error, and not an empty string.
pub proof fn lemma_null_string_field(fields: Seq<JsonField>, name: Seq<char>)
    requires
        spec_get(fields, name) == Some(Json::Null),
    ensures
        spec_string_or_null_field(fields, name) == Ok::<Seq<char>, SchemaErrV>("Null"@),
        ("Null"@).len() != 0,
{
    reveal_strlit("Null");
}

/// Fewer than thirteen events at the expected path is a truncated
/// feed, whenever the draw's label and revenue themselves read.
pub proof fn lemma_short_event_array_truncates(d: Seq<JsonField>)
    requires
        spec_string_field(d, "drawComment"@) is Ok,
        spec_string_field(d, "currentNetSale"@) is Ok,
        spec_arr_field(d, "drawEvents"@) is Ok,
        (spec_arr_field(d, "drawEvents"@)->Ok_0).len() < EVENT_COUNT,
    ensures
        decode_draw_spec(d) == Err::<PoolRoundV, SchemaErrV>(SchemaErrV::TruncatedFeed),
{
}

proof fn lemma_events_prefix(arr1: Seq<Json>, arr2: Seq<Json>, n: int)
    requires
        0 <= n,
        forall|i: int| 0 <= i < n ==> arr1[i] == arr2[i],
    ensures
        decode_events_spec(arr1, n) == decode_events_spec(arr2, n),
    decreases n,
{
    if n > 0 {
        lemma_events_prefix(arr1, arr2, n - 1);
    }
}

/// Entries beyond the thirteenth never matter: two event arrays that
/// agree on their first thirteen entries decode alike.
pub proof fn lemma_events_beyond_thirteen_ignored(arr1: Seq<Json>, arr2: Seq<Json>)
    requires
        forall|i: int| 0 <= i < EVENT_COUNT ==> arr1[i] == arr2[i],
    ensures
        decode_events_spec(arr1, EVENT_COUNT as int) == decode_events_spec(
            arr2,
            EVENT_COUNT as int,
        ),
{
    lemma_events_prefix(arr1, arr2, EVENT_COUNT as int);
}

/// Success is owed: a draw whose label and revenue read, and whose
/// event array holds at least thirteen entries of which the first
/// thirteen decode, decodes to a round.
pub proof fn lemma_round_decodes_when_parts_do(d: Seq<JsonField>)
    requires
        spec_string_field(d, "drawComment"@) is Ok,
        spec_string_field(d, "currentNetSale"@) is Ok,
        spec_arr_field(d, "drawEvents"@) is Ok,
        (spec_arr_field(d, "drawEvents"@)->Ok_0).len() >= EVENT_COUNT,
        decode_events_spec(spec_arr_field(d, "drawEvents"@)->Ok_0, EVENT_COUNT as int) is Ok,
    ensures
        decode_draw_spec(d) is Ok,
{
}

/// A decoded round holds exactly thirteen events, in feed order: the
/// `i`-th event of the round is the decoding of the `i`-th entry of
/// the document's `drawEvents` array.
pub proof fn lemma_round_has_thirteen_events(d: Seq<JsonField>)
    requires
        decode_draw_spec(d) is Ok,
    ensures
        (decode_draw_spec(d)->Ok_0).events.len() == EVENT_COUNT,
        forall|i: int|
            0 <= i < EVENT_COUNT ==> decode_event_spec((spec_arr_field(d, "drawEvents"@)->Ok_0)[i])
                == Ok::<DrawEventV, SchemaErrV>((decode_draw_spec(d)->Ok_0).events[i]),
{
    let evs = spec_arr_field(d, "drawEvents"@)->Ok_0;
    lemma_decode_events_ok(evs, EVENT_COUNT as int);
}

} // verus!
