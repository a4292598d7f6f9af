use octorust::json::{Json, JsonField, JsonKind};
use octorust::decode::decode;
use octorust::stryktipset::SchemaError;

fn field(key: &str, value: Json) -> JsonField {
    JsonField { key: key.to_string(), value }
}

fn s(v: &str) -> Json {
    Json::Str(v.to_string())
}

fn obj(fields: Vec<JsonField>) -> Json {
    Json::Obj(fields)
}

fn latest_obj() -> Json {
    obj(vec![
        field("0", s("W")),
        field("1", s("L")),
        field("2", s("D")),
        field("3", s("W")),
        field("4", s("W")),
    ])
}

fn participant(name: &str) -> Json {
    obj(vec![
        field("name", s(name)),
        field("goalAvg", s("1.5")),
        field("latest", latest_obj()),
    ])
}

fn team_stats(pos: &str) -> Json {
    obj(vec![field("position", s(pos))])
}

fn match_obj() -> Json {
    obj(vec![
        field(
            "participants",
            Json::Arr(vec![participant("Home FC"), participant("Away FC")]),
        ),
        field(
            "leagueTable",
            obj(vec![
                field("homeTeam", team_stats("1")),
                field("awayTeam", team_stats("2")),
            ]),
        ),
        field(
            "mutuals",
            obj(vec![
                field("homeWins", Json::Int(3)),
                field("draws", Json::Int(2)),
                field("awayWins", Json::Int(1)),
            ]),
        ),
    ])
}

fn event_with_odds(desc: &str, one: Json, x: Json, two: Json) -> Json {
    obj(vec![
        field("eventDescription", s(desc)),
        field(
            "odds",
            obj(vec![field("one", one), field("x", x), field("two", two)]),
        ),
        field(
            "svenskaFolket",
            obj(vec![
                field("one", s("46")),
                field("x", s("29")),
                field("two", s("25")),
            ]),
        ),
        field(
            "tioTidningarsTips",
            obj(vec![
                field("one", Json::Int(8)),
                field("x", Json::Int(1)),
                field("two", Json::Int(1)),
            ]),
        ),
        field("match", match_obj()),
    ])
}

fn event(desc: &str) -> Json {
    event_with_odds(desc, s("2,50"), s("3,20"), s("2,80"))
}

fn doc_with_events(events: Vec<Json>) -> Json {
    obj(vec![field(
        "draws",
        Json::Arr(vec![obj(vec![
            field("drawComment", s("Omgång 1")),
            field("currentNetSale", s("25000000")),
            field("drawEvents", Json::Arr(events)),
        ])]),
    )])
}

// Exactly thirteen well-formed events decode into a round of thirteen,
// in original order.
#[test]
fn thirteen_events_decode_in_order() {
    let events = (0..13).map(|i| event(&format!("Match {}", i))).collect();
    let round = decode(&doc_with_events(events)).unwrap();
    assert_eq!(round.events.len(), 13);
    assert_eq!(round.week, "Omgång 1");
    assert_eq!(round.revenue, "25000000");
    for (i, ev) in round.events.iter().enumerate() {
        assert_eq!(ev.event_description, format!("Match {}", i));
        assert_eq!(ev.odds.one, "2,50");
        assert_eq!(ev.game.participants.0.name, "Home FC");
        assert_eq!(ev.game.participants.1.name, "Away FC");
        assert_eq!(ev.game.league_table.home_team.position, "1");
        assert_eq!(ev.game.league_table.away_team.position, "2");
        assert_eq!(ev.game.mutuals.home_wins, 3);
        let tips = ev.tio_tidningars_tips.as_ref().unwrap();
        assert_eq!((tips.one, tips.x, tips.two), (8, 1, 1));
        assert_eq!(ev.game.participants.0.latest.as_array(), ["W", "L", "D", "W", "W"]);
    }
}

// A JSON null in a string-typed odds field decodes to the literal
// string "Null", not an error and not an empty string.
#[test]
fn null_odds_field_becomes_null_string() {
    let mut events: Vec<Json> = (0..12).map(|i| event(&format!("Match {}", i))).collect();
    events.insert(
        5,
        event_with_odds("Nullish", Json::Null, s("3,20"), Json::Null),
    );
    let round = decode(&doc_with_events(events)).unwrap();
    assert_eq!(round.events[5].odds.one, "Null");
    assert_eq!(round.events[5].odds.x, "3,20");
    assert_eq!(round.events[5].odds.two, "Null");
}

// Fewer than thirteen events is a truncated feed.
#[test]
fn twelve_events_is_truncated() {
    let events = (0..12).map(|i| event(&format!("Match {}", i))).collect();
    let err = decode(&doc_with_events(events)).unwrap_err();
    assert!(matches!(err, SchemaError::TruncatedFeed));
}

// Events beyond the thirteenth are ignored.
#[test]
fn extra_events_are_ignored() {
    let events = (0..15).map(|i| event(&format!("Match {}", i))).collect();
    let round = decode(&doc_with_events(events)).unwrap();
    assert_eq!(round.events.len(), 13);
    assert_eq!(round.events[12].event_description, "Match 12");
}

#[test]
fn empty_draws_is_truncated() {
    let doc = obj(vec![field("draws", Json::Arr(vec![]))]);
    let err = decode(&doc).unwrap_err();
    assert!(matches!(err, SchemaError::TruncatedFeed));
}

#[test]
fn missing_field_is_reported_by_name() {
    let mut events: Vec<Json> = (0..13).map(|i| event(&format!("Match {}", i))).collect();
    // Strip the description off one event.
    events[3] = obj(vec![field(
        "odds",
        obj(vec![
            field("one", s("2,50")),
            field("x", s("3,20")),
            field("two", s("2,80")),
        ]),
    )]);
    let err = decode(&doc_with_events(events)).unwrap_err();
    match err {
        SchemaError::MissingField(name) => assert_eq!(name, "eventDescription"),
        other => panic!("expected a missing field, got {:?}", other),
    }
}

#[test]
fn wrong_kind_is_a_type_mismatch() {
    let doc = obj(vec![field(
        "draws",
        Json::Arr(vec![obj(vec![
            field("drawComment", Json::Int(7)),
            field("currentNetSale", s("25000000")),
            field("drawEvents", Json::Arr(vec![])),
        ])]),
    )]);
    let err = decode(&doc).unwrap_err();
    match err {
        SchemaError::TypeMismatch(name, expected, actual) => {
            assert_eq!(name, "drawComment");
            assert_eq!(expected, JsonKind::Str);
            assert_eq!(actual, JsonKind::Int);
        },
        other => panic!("expected a type mismatch, got {:?}", other),
    }
}

#[test]
fn non_object_document_is_a_type_mismatch() {
    let err = decode(&Json::Arr(vec![])).unwrap_err();
    assert!(matches!(err, SchemaError::TypeMismatch(_, _, _)));
}

// Press tips are optional: an event without them still decodes.
#[test]
fn absent_press_tips_decode_to_none() {
    let stripped = obj(vec![
        field("eventDescription", s("No tips")),
        field(
            "odds",
            obj(vec![
                field("one", s("2,50")),
                field("x", s("3,20")),
                field("two", s("2,80")),
            ]),
        ),
        field(
            "svenskaFolket",
            obj(vec![
                field("one", s("46")),
                field("x", s("29")),
                field("two", s("25")),
            ]),
        ),
        field("match", match_obj()),
    ]);
    let mut events: Vec<Json> = (0..12).map(|i| event(&format!("Match {}", i))).collect();
    events.insert(0, stripped);
    let round = decode(&doc_with_events(events)).unwrap();
    assert!(round.events[0].tio_tidningars_tips.is_none());
    assert!(round.events[0].game.media.is_none());
    assert!(round.events[0].provider_ids.is_none());
}

// A media list and provider ids decode when present.
#[test]
fn media_and_providers_decode_when_present() {
    let mut fields = match event("With media") {
        Json::Obj(f) => f,
        _ => unreachable!(),
    };
    // Rebuild the match with a media list.
    fields.retain(|f| f.key != "match");
    let mut match_fields = match match_obj() {
        Json::Obj(f) => f,
        _ => unreachable!(),
    };
    match_fields.push(field(
        "media",
        Json::Arr(vec![
            obj(vec![field("channelName", s("TV4"))]),
            obj(vec![field("channelName", Json::Null)]),
        ]),
    ));
    fields.push(field("match", Json::Obj(match_fields)));
    fields.push(field(
        "providerIds",
        Json::Arr(vec![obj(vec![
            field("provider", s("BetRadar")),
            field("id", s("12345")),
        ])]),
    ));
    let mut events: Vec<Json> = (0..12).map(|i| event(&format!("Match {}", i))).collect();
    events.insert(0, Json::Obj(fields));
    let round = decode(&doc_with_events(events)).unwrap();
    let media = round.events[0].game.media.as_ref().unwrap();
    assert_eq!(media.len(), 2);
    assert_eq!(media[0].channel_name, "TV4");
    assert_eq!(media[1].channel_name, "Null");
    let providers = round.events[0].provider_ids.as_ref().unwrap();
    assert_eq!(providers.len(), 1);
    assert_eq!(providers[0].provider, "BetRadar");
    assert_eq!(providers[0].id, "12345");
}

// Too few participants is a missing field.
#[test]
fn one_participant_is_missing_field() {
    let bad_match = obj(vec![
        field("participants", Json::Arr(vec![participant("Lonely FC")])),
        field(
            "leagueTable",
            obj(vec![
                field("homeTeam", team_stats("1")),
                field("awayTeam", team_stats("2")),
            ]),
        ),
        field(
            "mutuals",
            obj(vec![
                field("homeWins", Json::Int(0)),
                field("draws", Json::Int(0)),
                field("awayWins", Json::Int(0)),
            ]),
        ),
    ]);
    let bad_event = obj(vec![
        field("eventDescription", s("Bad")),
        field(
            "odds",
            obj(vec![
                field("one", s("2,50")),
                field("x", s("3,20")),
                field("two", s("2,80")),
            ]),
        ),
        field(
            "svenskaFolket",
            obj(vec![
                field("one", s("46")),
                field("x", s("29")),
                field("two", s("25")),
            ]),
        ),
        field("match", bad_match),
    ]);
    let mut events: Vec<Json> = (0..12).map(|i| event(&format!("Match {}", i))).collect();
    events.insert(0, bad_event);
    let err = decode(&doc_with_events(events)).unwrap_err();
    match err {
        SchemaError::MissingField(name) => assert_eq!(name, "participants"),
        other => panic!("expected a missing field, got {:?}", other),
    }
}
