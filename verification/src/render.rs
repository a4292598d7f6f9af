//! Rendering a pool round as lines of text.
//!
//! A terse rendering gives, after the round's label and revenue, each
//! event's description, its odds line and its favorite line; a verbose
//! one adds the public's opinion, the press tips when present, and a
//! panel for each side.  Odds are shown either as decimal values with
//! four decimal places or, in probability mode, as implied-probability
//! percentages with two decimal places.  A field that does not parse
//! as a number is reported in place as `n/a` rather than failing the
//! whole rendering.
//!
//! The public's percentages are routed, in decimal mode, through the
//! same odds conversion as the odds themselves (the two quantities are
//! different units; the historical behaviour is kept deliberately).

use vstd::prelude::*;
use vstd::string::*;
use crate::odds::{comma_to_period, odds_value_e4, convert_odds_spec, convert_odds, e4_str, e2_str,
    probability_e2, min3, int_str, parse_odds, parse_odds_value, get_lowest_odds, format_e4,
    format_e2, i64_dec_string};
use crate::stryktipset::{Odds, OddsV, SvenskaFolket, SvenskaFolketV, TioTidningarsTips,
    TioTidningarsTipsV, Latest, LatestV, Participants, ParticipantsV, TeamStats, TeamStatsV,
    DrawEvent, DrawEventV, PoolRound, PoolRoundV};

verus! {

// ---------------------------------------------------------------------
// One value as text.
// ---------------------------------------------------------------------

/// An odds string in decimal mode: its value with four decimal places,
/// or `n/a` when it is not numeric.
pub open spec fn decimal_text(s: Seq<char>) -> Seq<char> {
    match odds_value_e4(comma_to_period(s)) {
        Option::Some(v) => e4_str(v),
        Option::None => "n/a"@,
    }
}

/// An odds string in probability mode: its implied probability with
/// two decimal places, or `n/a` when it is not numeric or zero.
pub open spec fn probability_text(s: Seq<char>) -> Seq<char> {
    match convert_odds_spec(s) {
        Option::Some(t) => t,
        Option::None => "n/a"@,
    }
}

/// A public-opinion percentage in decimal mode: the percentage put
/// through the odds conversion, `100 / value`, with four decimal
/// places; `n/a` when it is not numeric or zero.
pub open spec fn folket_decimal_text(s: Seq<char>) -> Seq<char> {
    match odds_value_e4(comma_to_period(s)) {
        Option::Some(v) => if v == 0 {
            "n/a"@
        } else {
            e4_str(10000000000 as nat / v)
        },
        Option::None => "n/a"@,
    }
}

fn decimal_text_of(s: &String) -> (r: String)
    ensures
        r@ == decimal_text(s@),
{
    let normalized = parse_odds(s.as_str());
    match parse_odds_value(normalized.as_str()) {
        Option::Some(v) => format_e4(v),
        Option::None => String::from_str("n/a"),
    }
}

fn probability_text_of(s: &String) -> (r: String)
    ensures
        r@ == probability_text(s@),
{
    match convert_odds(s.as_str()) {
        Option::Some(t) => t,
        Option::None => String::from_str("n/a"),
    }
}

fn folket_decimal_text_of(s: &String) -> (r: String)
    ensures
        r@ == folket_decimal_text(s@),
{
    let normalized = parse_odds(s.as_str());
    match parse_odds_value(normalized.as_str()) {
        Option::Some(v) => {
            if v == 0 {
                String::from_str("n/a")
            } else {
                format_e4(10000000000u64 / v)
            }
        },
        Option::None => String::from_str("n/a"),
    }
}

// ---------------------------------------------------------------------
// One line of output.
// ---------------------------------------------------------------------

/// The revenue line: `Revenue: <amount> SEK`.
pub open spec fn revenue_line_spec(revenue: Seq<char>) -> Seq<char> {
    "Revenue: "@ + revenue + " SEK"@
}

pub fn revenue_line(revenue: &String) -> (r: String)
    ensures
        r@ == revenue_line_spec(revenue@),
{
    let r = String::from_str("Revenue: ").concat(revenue.as_str()).concat(" SEK");
    proof {
        assert(r@ =~= revenue_line_spec(revenue@));
    }
    r
}

/// The odds line: the three values in decimal or probability form.
pub open spec fn odds_line_spec(o: OddsV, probability: bool) -> Seq<char> {
    if probability {
        "1: "@ + probability_text(o.one) + "% X: "@ + probability_text(o.x) + "% 2: "@
            + probability_text(o.two) + "%"@
    } else {
        "1: "@ + decimal_text(o.one) + " X: "@ + decimal_text(o.x) + " 2: "@ + decimal_text(o.two)
    }
}

/// Renders the three values as implied-probability percentages.
pub fn print_probability(o: &Odds) -> (r: String)
    ensures
        r@ == odds_line_spec(o@, true),
{
    let r = String::from_str("1: ").concat(probability_text_of(&o.one).as_str()).concat(
        "% X: ",
    ).concat(probability_text_of(&o.x).as_str()).concat("% 2: ").concat(
        probability_text_of(&o.two).as_str(),
    ).concat("%");
    proof {
        assert(r@ =~= odds_line_spec(o@, true));
    }
    r
}

/// Renders the three values as decimal odds.
pub fn print_decimal(o: &Odds) -> (r: String)
    ensures
        r@ == odds_line_spec(o@, false),
{
    let r = String::from_str("1: ").concat(decimal_text_of(&o.one).as_str()).concat(
        " X: ",
    ).concat(decimal_text_of(&o.x).as_str()).concat(" 2: ").concat(
        decimal_text_of(&o.two).as_str(),
    );
    proof {
        assert(r@ =~= odds_line_spec(o@, false));
    }
    r
}

/// Renders the odds line of one event, in the selected mode.
pub fn print_odds(o: &Odds, probability: bool) -> (r: String)
    ensures
        r@ == odds_line_spec(o@, probability),
{
    if probability {
        print_probability(o)
    } else {
        print_decimal(o)
    }
}

/// The public-opinion line: raw percentages in probability mode, the
/// odds-converted values in decimal mode.
pub open spec fn folket_line_spec(sf: SvenskaFolketV, probability: bool) -> Seq<char> {
    if probability {
        "Folket: 1: "@ + sf.one + "% x: "@ + sf.x + "% 2: "@ + sf.two + "%"@
    } else {
        "Folket: 1: "@ + folket_decimal_text(sf.one) + " X: "@ + folket_decimal_text(sf.x)
            + " 2: "@ + folket_decimal_text(sf.two)
    }
}

/// Renders the public-opinion line of one event.
pub fn print_folket(sf: &SvenskaFolket, probability: bool) -> (r: String)
    ensures
        r@ == folket_line_spec(sf@, probability),
{
    if probability {
        let r = String::from_str("Folket: 1: ").concat(sf.one.as_str()).concat("% x: ").concat(
            sf.x.as_str(),
        ).concat("% 2: ").concat(sf.two.as_str()).concat("%");
        proof {
            assert(r@ =~= folket_line_spec(sf@, probability));
        }
        r
    } else {
        let r = String::from_str("Folket: 1: ").concat(
            folket_decimal_text_of(&sf.one).as_str(),
        ).concat(" X: ").concat(folket_decimal_text_of(&sf.x).as_str()).concat(" 2: ").concat(
            folket_decimal_text_of(&sf.two).as_str(),
        );
        proof {
            assert(r@ =~= folket_line_spec(sf@, probability));
        }
        r
    }
}

/// The press-tip line: the three raw counts, each suffixed with a
/// literal `0%` (a ones-place display by concatenation, not a computed
/// percentage).
pub open spec fn media_line_spec(t: TioTidningarsTipsV) -> Seq<char> {
    "10 tidningar: 1: "@ + int_str(t.one) + "0% x: "@ + int_str(t.x) + "0% 2: "@ + int_str(t.two)
        + "0%"@
}

/// Renders the press-tip line of one event.
pub fn print_media(t: &TioTidningarsTips) -> (r: String)
    ensures
        r@ == media_line_spec(t@),
{
    let r = String::from_str("10 tidningar: 1: ").concat(i64_dec_string(t.one).as_str()).concat(
        "0% x: ",
    ).concat(i64_dec_string(t.x).as_str()).concat("0% 2: ").concat(
        i64_dec_string(t.two).as_str(),
    ).concat("0%");
    proof {
        assert(r@ =~= media_line_spec(t@));
    }
    r
}

/// The favorite of an event: the smallest of the three odds values,
/// ties toward home over draw over away; nothing when any of the three
/// does not parse.
pub open spec fn favorite_value(o: OddsV) -> Option<nat> {
    match odds_value_e4(comma_to_period(o.one)) {
        Option::None => Option::None,
        Option::Some(a) => match odds_value_e4(comma_to_period(o.x)) {
            Option::None => Option::None,
            Option::Some(b) => match odds_value_e4(comma_to_period(o.two)) {
                Option::None => Option::None,
                Option::Some(c) => Option::Some(min3(a as int, b as int, c as int) as nat),
            },
        },
    }
}

/// When all three odds parse, the favorite is the smallest of their
/// values, and a tie falls toward home over draw over away.
pub proof fn lemma_favorite_value_is_min(o: OddsV)
    requires
        favorite_value(o) is Some,
    ensures
        ({
            let a = odds_value_e4(comma_to_period(o.one))->Some_0;
            let b = odds_value_e4(comma_to_period(o.x))->Some_0;
            let c = odds_value_e4(comma_to_period(o.two))->Some_0;
            let v = favorite_value(o)->Some_0;
            &&& v <= a
            &&& v <= b
            &&& v <= c
            &&& (v == a || v == b || v == c)
            &&& (a <= b && a <= c ==> v == a)
            &&& (b < a && b <= c ==> v == b)
            &&& (c < a && c < b ==> v == c)
        }),
{
}

/// The favorite line: the favorite's odds with two decimal places, or
/// its implied probability in probability mode; `n/a` when any odds
/// string does not parse, or on zero odds in probability mode.
pub open spec fn favorite_line_spec(o: OddsV, probability: bool) -> Seq<char> {
    match favorite_value(o) {
        Option::None => "Favorite: n/a"@,
        Option::Some(v) => if probability {
            if v == 0 {
                "Favorite: n/a"@
            } else {
                "Favorite: "@ + e2_str(probability_e2(v)) + "%"@
            }
        } else {
            "Favorite: "@ + e2_str(v / 100)
        },
    }
}

/// Renders the favorite line of one event.
pub fn print_favorite(o: &Odds, probability: bool) -> (r: String)
    ensures
        r@ == favorite_line_spec(o@, probability),
{
    let n_one = parse_odds(o.one.as_str());
    let n_x = parse_odds(o.x.as_str());
    let n_two = parse_odds(o.two.as_str());
    let v_one = parse_odds_value(n_one.as_str());
    let v_x = parse_odds_value(n_x.as_str());
    let v_two = parse_odds_value(n_two.as_str());
    if v_one.is_none() || v_x.is_none() || v_two.is_none() {
        let r = String::from_str("Favorite: n/a");
        return r;
    }
    let fav = get_lowest_odds(v_one.unwrap(), v_x.unwrap(), v_two.unwrap());
    if probability {
        if fav == 0 {
            String::from_str("Favorite: n/a")
        } else {
            let r = String::from_str("Favorite: ").concat(
                format_e2(100000000u64 / fav).as_str(),
            ).concat("%");
            proof {
                assert(r@ =~= favorite_line_spec(o@, probability));
            }
            r
        }
    } else {
        let r = String::from_str("Favorite: ").concat(format_e2(fav / 100).as_str());
        proof {
            assert(r@ =~= favorite_line_spec(o@, probability));
        }
        r
    }
}

/// The goal-average line of one side's panel.
pub open spec fn goal_avg_line_spec(goal_avg: Seq<char>) -> Seq<char> {
    "Goal average: "@ + goal_avg
}

/// Renders the goal-average line of one participant.
pub fn print_goal_avg(p: &Participants) -> (r: String)
    ensures
        r@ == goal_avg_line_spec(p@.goal_avg),
{
    let r = String::from_str("Goal average: ").concat(p.goal_avg.as_str());
    proof {
        assert(r@ =~= goal_avg_line_spec(p@.goal_avg));
    }
    r
}

/// The trend line: the five form codes in positional order.
pub open spec fn trend_line_spec(l: LatestV) -> Seq<char> {
    "Trend: "@ + l.zero + " "@ + l.one + " "@ + l.two + " "@ + l.three + " "@ + l.four
}

/// Renders the trend line of one participant.
pub fn print_trend(p: &Participants) -> (r: String)
    ensures
        r@ == trend_line_spec(p@.latest),
{
    let r = String::from_str("Trend: ").concat(p.latest.zero.as_str()).concat(" ").concat(
        p.latest.one.as_str(),
    ).concat(" ").concat(p.latest.two.as_str()).concat(" ").concat(
        p.latest.three.as_str(),
    ).concat(" ").concat(p.latest.four.as_str());
    proof {
        assert(r@ =~= trend_line_spec(p@.latest));
    }
    r
}

/// The table-position line of one side's panel.
pub open spec fn position_line_spec(t: TeamStatsV) -> Seq<char> {
    "Position: "@ + t.position
}

/// Renders the table-position line of one side.
pub fn print_table_position(t: &TeamStats) -> (r: String)
    ensures
        r@ == position_line_spec(t@),
{
    let r = String::from_str("Position: ").concat(t.position.as_str());
    proof {
        assert(r@ =~= position_line_spec(t@));
    }
    r
}

// ---------------------------------------------------------------------
// Whole events and rounds.
// ---------------------------------------------------------------------

/// One side's panel: name, goal average, trend, table position.
pub open spec fn panel_spec(p: ParticipantsV, t: TeamStatsV) -> Seq<Seq<char>> {
    seq![p.name, goal_avg_line_spec(p.goal_avg), trend_line_spec(p.latest), position_line_spec(t)]
}

/// The lines of one event: a separating blank, the description, the
/// odds line and the favorite line; verbose adds the public's opinion,
/// the press tips when the feed carried them, and both panels.
pub open spec fn render_event_spec(e: DrawEventV, probability: bool, verbose: bool) -> Seq<
    Seq<char>,
> {
    if !verbose {
        seq![
            ""@,
            e.event_description,
            odds_line_spec(e.odds, probability),
            favorite_line_spec(e.odds, probability),
        ]
    } else {
        seq![
            ""@,
            e.event_description,
            odds_line_spec(e.odds, probability),
            folket_line_spec(e.svenska_folket, probability),
        ] + (match e.tio_tidningars_tips {
            Option::Some(t) => seq![media_line_spec(t)],
            Option::None => Seq::empty(),
        }) + seq![favorite_line_spec(e.odds, probability)] + panel_spec(
            e.game.participants.0,
            e.game.league_table.home_team,
        ) + panel_spec(e.game.participants.1, e.game.league_table.away_team)
    }
}

/// Renders one event as lines of text.
pub fn render_event(e: &DrawEvent, probability: bool, verbose: bool) -> (r: Vec<String>)
    ensures
        r@.map_values(|s: String| s@) == render_event_spec(e@, probability, verbose),
{
    let mut lines: Vec<String> = Vec::new();
    lines.push(String::from_str(""));
    lines.push(e.event_description.clone());
    lines.push(print_odds(&e.odds, probability));
    if !verbose {
        lines.push(print_favorite(&e.odds, probability));
        proof {
            assert(lines@.map_values(|s: String| s@) =~= render_event_spec(
                e@,
                probability,
                verbose,
            ));
        }
        return lines;
    }
    lines.push(print_folket(&e.svenska_folket, probability));
    match &e.tio_tidningars_tips {
        Option::Some(t) => {
            lines.push(print_media(t));
        },
        Option::None => {},
    }
    lines.push(print_favorite(&e.odds, probability));
    lines.push(e.game.participants.0.name.clone());
    lines.push(print_goal_avg(&e.game.participants.0));
    lines.push(print_trend(&e.game.participants.0));
    lines.push(print_table_position(&e.game.league_table.home_team));
    lines.push(e.game.participants.1.name.clone());
    lines.push(print_goal_avg(&e.game.participants.1));
    lines.push(print_trend(&e.game.participants.1));
    lines.push(print_table_position(&e.game.league_table.away_team));
    proof {
        assert(lines@.map_values(|s: String| s@) =~= render_event_spec(e@, probability, verbose));
    }
    lines
}

/// The first `n` events' lines, in feed order.
pub open spec fn render_events_spec(events: Seq<DrawEventV>, probability: bool, verbose: bool, n: int) -> Seq<
    Seq<char>,
>
    decreases n,
{
    if n <= 0 {
        Seq::empty()
    } else {
        render_events_spec(events, probability, verbose, n - 1) + render_event_spec(
            events[n - 1],
            probability,
            verbose,
        )
    }
}

/// All lines of a rendered round: the label, the revenue line, a blank
/// line, then every event's lines in feed order.
pub open spec fn render_round_spec(r: PoolRoundV, probability: bool, verbose: bool) -> Seq<
    Seq<char>,
> {
    seq![r.week, revenue_line_spec(r.revenue), ""@] + render_events_spec(
        r.events,
        probability,
        verbose,
        r.events.len() as int,
    )
}

/// Renders a whole round as lines of text, exactly the lines that
/// `render_round_spec` names: rendering reads the round and nothing
/// else, and every event is rendered in feed order.
#[verifier::loop_isolation(false)]
pub fn print_games(r: &PoolRound, probability: bool, verbose: bool) -> (lines: Vec<String>)
    ensures
        lines@.map_values(|s: String| s@) == render_round_spec(r@, probability, verbose),
{
    let mut lines: Vec<String> = Vec::new();
    lines.push(r.week.clone());
    lines.push(revenue_line(&r.revenue));
    lines.push(String::from_str(""));
    proof {
        assert(lines@.map_values(|s: String| s@) =~= seq![
            r@.week,
            revenue_line_spec(r@.revenue),
            ""@,
        ]);
        assert(lines@.map_values(|s: String| s@) =~= seq![
            r@.week,
            revenue_line_spec(r@.revenue),
            ""@,
        ] + render_events_spec(r@.events, probability, verbose, 0));
    }
    let n = r.events.len();
    let mut i: usize = 0;
    while i < n
        invariant
            0 <= i <= n,
            lines@.map_values(|s: String| s@) == seq![
                r@.week,
                revenue_line_spec(r@.revenue),
                ""@,
            ] + render_events_spec(r@.events, probability, verbose, i as int),
        decreases n - i,
    {
        let ghost prev = lines@.map_values(|s: String| s@);
        let mut ev_lines = render_event(&r.events[i], probability, verbose);
        let ghost evv = ev_lines@.map_values(|s: String| s@);
        lines.append(&mut ev_lines);
        proof {
            assert(r@.events[i as int] == r.events@[i as int]@);
            assert(lines@.map_values(|s: String| s@) =~= prev + evv);
            assert(prev + evv =~= seq![r@.week, revenue_line_spec(r@.revenue), ""@]
                + render_events_spec(r@.events, probability, verbose, i as int + 1));
        }
        i += 1;
    }
    lines
}

} // verus!
