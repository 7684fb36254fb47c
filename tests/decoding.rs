use statsapi::client::{decimal, format_date, get_url, padded};
use statsapi::decode::{Date, Decode};
use statsapi::encode::Encode;
use statsapi::json::{parse_json, JsonValue};
use statsapi::model::{mlb, nhl, ScheduleGameTeam, ScheduleGameTeamDetail};

fn json(text: &str) -> JsonValue {
    parse_json(text.as_bytes()).unwrap()
}

#[test]
fn parse_reads_every_kind_of_value() {
    let j = json(r#"{"a":null,"b":true,"c":7,"d":-3,"e":1.5,"f":"x","g":[1,"y"],"h":{"i":{}}}"#);
    assert!(matches!(j.member("a"), Some(JsonValue::Null)));
    assert!(matches!(j.member("b"), Some(JsonValue::Bool(true))));
    assert!(matches!(j.member("c"), Some(JsonValue::Number(Some(7)))));
    assert!(matches!(j.member("d"), Some(JsonValue::Number(None))));
    assert!(matches!(j.member("e"), Some(JsonValue::Number(None))));
    match j.member("f") {
        Some(JsonValue::Str(s)) => assert_eq!(s, "x"),
        _ => panic!("expected a string"),
    }
    match j.member("g") {
        Some(JsonValue::Array(items)) => assert_eq!(items.len(), 2),
        _ => panic!("expected an array"),
    }
    assert!(j.member("h").unwrap().member("i").unwrap().is_object());
    assert!(j.member("z").is_none());
    assert!(json("[1]").member("a").is_none());
}

#[test]
fn parse_rejects_text_that_is_not_json() {
    assert!(parse_json(b"{").is_none());
    assert!(parse_json(b"").is_none());
    assert!(parse_json(b"{\"a\":1} x").is_none());
}

#[test]
fn missing_leaves_take_their_defaults() {
    let team = nhl::Team::decode(&json(r#"{"id":5}"#)).unwrap();
    assert_eq!(team.id, 5);
    assert_eq!(team.name, "");
    assert_eq!(team.link, "");
    assert!(!team.active);
    assert_eq!(team.franchise_id, 0);
    assert_eq!(team.short_name, None);
}

#[test]
fn wrong_typed_leaves_fail_their_record() {
    assert!(nhl::Team::decode(&json(r#"{"id":5,"name":7}"#)).is_none());
    assert!(nhl::Team::decode(&json(r#"{"id":5,"link":null}"#)).is_none());
    assert!(nhl::Team::decode(&json(r#"{"id":5,"active":"yes"}"#)).is_none());
    assert!(nhl::Team::decode(&json(r#"{"id":5,"franchiseId":"23"}"#)).is_none());
    // an optional leaf of the wrong type is only absent
    let team = nhl::Team::decode(&json(r#"{"id":5,"shortName":4}"#)).unwrap();
    assert_eq!(team.short_name, None);
}

#[test]
fn numbers_out_of_range() {
    let too_big = json(r#"{"id":4294967296}"#);
    assert!(nhl::Team::decode(&too_big).is_none());
    let largest = json(r#"{"id":4294967295}"#);
    assert_eq!(nhl::Team::decode(&largest).unwrap().id, u32::MAX);
    let side = json(r#"{"score":300,"team":{"id":1}}"#);
    let side = ScheduleGameTeam::decode(&side).unwrap();
    assert_eq!(side.score, None);
    assert_eq!(side.detail.id, 1);
    let line = json(r#"{"currentPeriod":256}"#);
    assert!(nhl::GameLinescoreResponse::decode(&line).is_none());
    let line = json(r#"{"currentPeriod":255}"#);
    assert_eq!(nhl::GameLinescoreResponse::decode(&line).unwrap().current_period, 255);
}

#[test]
fn a_record_must_be_an_object() {
    assert!(nhl::GameContentEpgItem::decode(&json(r#""x""#)).is_none());
    assert!(nhl::GameContentEpgItem::decode(&json("{}")).is_some());
    assert!(ScheduleGameTeamDetail::decode(&json("[]")).is_none());
}

#[test]
fn round_trip_nhl_team() {
    let team = nhl::Team {
        id: 1,
        name: String::from("New Jersey Devils"),
        link: String::from("/api/v1/teams/1"),
        abbreviation: String::from("NJD"),
        team_name: String::from("Devils"),
        location_name: String::new(),
        first_year_of_play: Some(String::from("1982")),
        short_name: None,
        official_site_url: Some(String::new()),
        franchise_id: 23,
        active: true,
    };
    let back = nhl::Team::decode(&team.encode()).unwrap();
    assert_eq!(back, team);
}

#[test]
fn round_trip_mlb_team_and_list() {
    let team = mlb::Team {
        id: 133,
        name: String::from("Oakland Athletics"),
        link: String::new(),
        abbreviation: None,
        team_name: String::from("Athletics"),
        location_name: Some(String::from("Oakland")),
        first_year_of_play: None,
        short_name: Some(String::from("Oakland")),
        active: false,
    };
    let response = mlb::TeamsResponse { teams: vec![team.clone(), team] };
    let back = mlb::TeamsResponse::decode(&response.encode()).unwrap();
    assert_eq!(back, response);
}

#[test]
fn round_trip_linescores() {
    let side = |id: u32, goals: u8| nhl::GameLinescoreTeam {
        detail: nhl::GameLinescoreTeamDetail { id, name: String::from("T"), link: String::new() },
        goals,
    };
    let line = nhl::GameLinescoreResponse {
        current_period: 3,
        teams: Some(nhl::GameLinescoreTeams { home: side(6, 3), away: side(7, 2) }),
    };
    assert_eq!(nhl::GameLinescoreResponse::decode(&line.encode()).unwrap(), line);
    let empty = mlb::GameLinescoreResponse { current_inning: 0, teams: None };
    assert_eq!(mlb::GameLinescoreResponse::decode(&empty.encode()).unwrap(), empty);
}

#[test]
fn round_trip_mlb_content() {
    let content = mlb::GameContentResponse {
        editorial: mlb::GameContentEditorial { preview: None },
        media: Some(mlb::GameContentMedia {
            epg: Some(vec![mlb::GameContentEpg {
                title: String::from("MLBTV"),
                items: vec![mlb::GameContentEpgItem {
                    media_feed_type: Some(String::from("HOME")),
                    call_letters: None,
                    media_state: None,
                    id: 9,
                }],
            }]),
        }),
    };
    assert_eq!(mlb::GameContentResponse::decode(&content.encode()).unwrap(), content);
}

#[test]
fn decimal_digits() {
    assert_eq!(decimal(0), "0");
    assert_eq!(decimal(7), "7");
    assert_eq!(decimal(2019020400), "2019020400");
    assert_eq!(decimal(u64::MAX), "18446744073709551615");
    assert_eq!(padded(5, 4), "0005");
    assert_eq!(padded(12345, 4), "12345");
    assert_eq!(padded(0, 0), "0");
}

#[test]
fn dates_as_query_text() {
    assert_eq!(format_date(&Date { year: 2019, month: 11, day: 10 }), "2019-11-10");
    assert_eq!(format_date(&Date { year: 5, month: 1, day: 2 }), "0005-01-02");
    assert_eq!(format_date(&Date { year: -44, month: 3, day: 15 }), "-0044-03-15");
    assert_eq!(format_date(&Date { year: 12345, month: 12, day: 31 }), "+12345-12-31");
}

#[test]
fn urls_with_and_without_query() {
    let none: Vec<(String, String)> = Vec::new();
    assert_eq!(get_url("https://h/api", "teams", &none), "https://h/api/teams");
    let pairs = vec![(String::from("date"), String::from("2019-11-10")), (String::from("q"), String::from("a b&c"))];
    assert_eq!(get_url("https://h", "schedule", &pairs), "https://h/schedule?date=2019-11-10&q=a+b%26c");
}

#[test]
fn calendar_dates() {
    assert!(Date { year: 2019, month: 11, day: 10 }.is_valid());
    assert!(Date { year: 2020, month: 2, day: 29 }.is_valid());
    assert!(Date { year: 2000, month: 2, day: 29 }.is_valid());
    assert!(!Date { year: 1900, month: 2, day: 29 }.is_valid());
    assert!(!Date { year: 2019, month: 2, day: 29 }.is_valid());
    assert!(!Date { year: 2019, month: 4, day: 31 }.is_valid());
    assert!(!Date { year: 2019, month: 13, day: 1 }.is_valid());
    assert!(!Date { year: 2019, month: 1, day: 0 }.is_valid());
    assert!(Date { year: -4, month: 2, day: 29 }.is_valid());
}

#[test]
fn highlight_and_epg_items_are_isolated() {
    let good = json(r#"{"description":"Goal","type":"GOAL","highlight":{"title":"t"}}"#);
    let bad = json(r#"{"description":"Goal","type":"GOAL","highlight":42}"#);
    let good = nhl::GameContentMilestoneItem::decode(&good).unwrap();
    let bad = nhl::GameContentMilestoneItem::decode(&bad).unwrap();
    assert_eq!(good.highlight.unwrap().title, "t");
    assert!(bad.highlight.is_none());
    assert_eq!(bad.description, "Goal");
    assert_eq!(bad.kind, "GOAL");
    let text = json(r#"{"description":"Goal","highlight":"x"}"#);
    assert!(nhl::GameContentMilestoneItem::decode(&text).unwrap().highlight.is_none());
    // a leaf of the wrong type fails the highlight, which is then absent
    let leaf = json(r#"{"description":"Goal","highlight":{"title":5,"blurb":"b"}}"#);
    let item = nhl::GameContentMilestoneItem::decode(&leaf).unwrap();
    assert!(item.highlight.is_none());
    assert_eq!(item.description, "Goal");
    let missing = json(r#"{"highlight":{"blurb":"b"}}"#);
    let h = nhl::GameContentMilestoneItem::decode(&missing).unwrap().highlight.unwrap();
    assert_eq!(h.title, "");
    assert_eq!(h.blurb, "b");
    let epg = nhl::GameContentEpg::decode(&json(r#"{"title":"NHLTV","items":"bad"}"#)).unwrap();
    assert_eq!(epg.title, "NHLTV");
    assert!(epg.items.is_none());
}
