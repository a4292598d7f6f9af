use octorust::decode::decode_document;
use octorust::render::{print_favorite, print_folket, print_games, print_media, print_odds,
    print_trend};
use octorust::stryktipset::{IngestError, Latest, Odds, SvenskaFolket, TioTidningarsTips};

fn fixture_document() -> String {
    let event = r#"{
        "eventDescription": "Home FC - Away FC",
        "odds": {"one": "2,50", "x": "3,20", "two": "2,80"},
        "svenskaFolket": {"one": "46", "x": "29", "two": "25"},
        "tioTidningarsTips": {"one": 8, "x": 1, "two": 1},
        "match": {
            "participants": [
                {"name": "Home FC", "goalAvg": "1.5",
                 "latest": {"0": "W", "1": "L", "2": "D", "3": "W", "4": "W"}},
                {"name": "Away FC", "goalAvg": "0.9",
                 "latest": {"0": "L", "1": "L", "2": "W", "3": "D", "4": "L"}}
            ],
            "leagueTable": {"homeTeam": {"position": "1"}, "awayTeam": {"position": "14"}},
            "mutuals": {"homeWins": 3, "draws": 2, "awayWins": 1}
        }
    }"#;
    let events = vec![event; 13].join(",");
    format!(
        r#"{{"draws": [{{"drawComment": "Omgång 1", "currentNetSale": "25000000", "drawEvents": [{}]}}]}}"#,
        events
    )
}

// End-to-end: the fixture decodes through the real JSON parser and the
// terse decimal rendering shows the week, the revenue and each
// favorite.
#[test]
fn fixture_renders_terse_decimal() {
    let round = decode_document(&fixture_document()).unwrap();
    let lines = print_games(&round, false, false);
    assert_eq!(lines[0], "Omgång 1");
    assert_eq!(lines[1], "Revenue: 25000000 SEK");
    assert!(lines[1].contains("25000000"));
    assert_eq!(lines[2], "");
    // Four lines per event: a blank, the description, odds, favorite.
    assert_eq!(lines.len(), 3 + 13 * 4);
    for i in 0..13 {
        assert_eq!(lines[3 + 4 * i], "");
        assert_eq!(lines[4 + 4 * i], "Home FC - Away FC");
        assert_eq!(lines[5 + 4 * i], "1: 2.5000 X: 3.2000 2: 2.8000");
        assert_eq!(lines[6 + 4 * i], "Favorite: 2.50");
    }
}

// End-to-end in probability mode: the favorite shows 100 / 2.50.
#[test]
fn fixture_renders_terse_probability() {
    let round = decode_document(&fixture_document()).unwrap();
    let lines = print_games(&round, true, false);
    assert_eq!(lines[0], "Omgång 1");
    assert_eq!(lines[5], "1: 40.00% X: 31.25% 2: 35.71%");
    assert_eq!(lines[6], "Favorite: 40.00%");
}

#[test]
fn fixture_renders_verbose() {
    let round = decode_document(&fixture_document()).unwrap();
    let lines = print_games(&round, false, true);
    // Fourteen lines per event: blank, description, odds, folket,
    // press tips, favorite, then four panel lines a side.
    assert_eq!(lines.len(), 3 + 13 * 14);
    assert_eq!(lines[4], "Home FC - Away FC");
    assert_eq!(lines[5], "1: 2.5000 X: 3.2000 2: 2.8000");
    assert_eq!(lines[6], "Folket: 1: 2.1739 X: 3.4482 2: 4.0000");
    assert_eq!(lines[7], "10 tidningar: 1: 80% x: 10% 2: 10%");
    assert_eq!(lines[8], "Favorite: 2.50");
    assert_eq!(lines[9], "Home FC");
    assert_eq!(lines[10], "Goal average: 1.5");
    assert_eq!(lines[11], "Trend: W L D W W");
    assert_eq!(lines[12], "Position: 1");
    assert_eq!(lines[13], "Away FC");
    assert_eq!(lines[14], "Goal average: 0.9");
    assert_eq!(lines[15], "Trend: L L W D L");
    assert_eq!(lines[16], "Position: 14");
}

#[test]
fn garbage_text_is_invalid_payload() {
    let err = decode_document("this is not json").unwrap_err();
    assert!(matches!(err, IngestError::InvalidPayload));
}

#[test]
fn truncated_document_is_schema_error() {
    let doc = r#"{"draws": [{"drawComment": "Omgång 2", "currentNetSale": "1", "drawEvents": []}]}"#;
    let err = decode_document(doc).unwrap_err();
    assert!(matches!(err, IngestError::Schema(_)));
}

fn sample_odds() -> Odds {
    Odds { one: "2,50".to_string(), x: "3,20".to_string(), two: "2,80".to_string() }
}

#[test]
fn odds_lines_both_modes() {
    assert_eq!(print_odds(&sample_odds(), false), "1: 2.5000 X: 3.2000 2: 2.8000");
    assert_eq!(print_odds(&sample_odds(), true), "1: 40.00% X: 31.25% 2: 35.71%");
}

// A non-numeric odds string is reported in place, not fatal.
#[test]
fn null_odds_render_as_not_available() {
    let o = Odds { one: "Null".to_string(), x: "3,20".to_string(), two: "2,80".to_string() };
    assert_eq!(print_odds(&o, false), "1: n/a X: 3.2000 2: 2.8000");
    assert_eq!(print_favorite(&o, false), "Favorite: n/a");
    assert_eq!(print_favorite(&o, true), "Favorite: n/a");
}

#[test]
fn favorite_tie_shows_shared_minimum() {
    let o = Odds { one: "2,50".to_string(), x: "2,50".to_string(), two: "3,00".to_string() };
    assert_eq!(print_favorite(&o, false), "Favorite: 2.50");
}

#[test]
fn folket_lines_both_modes() {
    let sf = SvenskaFolket { one: "46".to_string(), x: "29".to_string(), two: "25".to_string() };
    assert_eq!(print_folket(&sf, true), "Folket: 1: 46% x: 29% 2: 25%");
    assert_eq!(print_folket(&sf, false), "Folket: 1: 2.1739 X: 3.4482 2: 4.0000");
}

#[test]
fn media_line_concatenates_counts() {
    let t = TioTidningarsTips { one: 8, x: 1, two: 1 };
    assert_eq!(print_media(&t), "10 tidningar: 1: 80% x: 10% 2: 10%");
}

#[test]
fn trend_line_lists_form_codes() {
    let latest = Latest {
        zero: "W".to_string(),
        one: "L".to_string(),
        two: "D".to_string(),
        three: "W".to_string(),
        four: "W".to_string(),
    };
    assert_eq!(latest.as_array(), ["W", "L", "D", "W", "W"]);
    let p = octorust::stryktipset::Participants {
        name: "Home FC".to_string(),
        goal_avg: "1.5".to_string(),
        latest,
    };
    assert_eq!(print_trend(&p), "Trend: W L D W W");
}
