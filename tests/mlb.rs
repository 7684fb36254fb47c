use statsapi::client::mlb::{
    game_content_from_body, game_linescore_from_body, schedule_from_body, team_from_body,
    teams_from_body, Endpoint, Sport,
};
use statsapi::decode::Date;

fn endpoint() -> Endpoint {
    Endpoint { base: String::from("http://127.0.0.1:1234"), sport: Sport::Mlb }
}

const TEAMS: &str = r#"{"copyright":"c","teams":[
  {"id":133,"name":"Oakland Athletics","link":"/api/v1/teams/133","abbreviation":"OAK",
   "teamName":"Athletics","locationName":"Oakland","firstYearOfPlay":"1901","shortName":"Oakland",
   "active":true,"venue":{"id":10,"name":"Oakland Coliseum"}},
  {"id":134,"name":"Pittsburgh Pirates","link":"/api/v1/teams/134","teamName":"Pirates","active":true}
]}"#;

const TEAM: &str = r#"{"teams":[{"id":133,"name":"Oakland Athletics","link":"/api/v1/teams/133",
  "abbreviation":"OAK","teamName":"Athletics","locationName":"Oakland","active":true}]}"#;

const SCHEDULE: &str = r#"{"totalGames":1,"dates":[{"date":"2019-11-10","totalGames":1,"games":[
  {"gamePk":599377,"link":"/api/v1.1/game/599377/feed/live","gameType":"E","season":"2019",
   "gameDate":"2019-11-10T03:05:00Z",
   "teams":{"away":{"score":2,"team":{"id":4940,"name":"Samurai Japan","link":"/api/v1/teams/4940"}},
            "home":{"score":5,"team":{"id":1130,"name":"Mexico","link":"/api/v1/teams/1130"}}}}]}]}"#;

const SCHEDULE_EMPTY: &str = r#"{"copyright":"c","totalItems":0,"totalGames":0,"dates":[]}"#;

const CONTENT_PRE: &str = r#"{"link":"/api/v1/game/530428/content","editorial":{"preview":"unavailable"},
  "media":{"epg":[{"title":"MLBTV","items":[{"mediaFeedType":"HOME","callLetters":"NBCS","mediaState":"MEDIA_OFF","id":1}]}]}}"#;

const CONTENT_POST: &str = r#"{"editorial":{"preview":{"title":"Preview","items":[{"type":"article",
  "headline":"A's win","subhead":"","seoTitle":"t","seoDescription":"d","media":{"type":"photo",
  "image":{"cuts":{}}}}]}},"media":{"epg":[{"title":"MLBTV","items":[]}]}}"#;

const LINESCORE_PRE: &str = r#"{"copyright":"c","balls":0,"strikes":0,"outs":0}"#;

const LINESCORE_POST: &str = r#"{"currentInning":9,"teams":{"home":{"runs":5,"hits":9,"errors":0,"leftOnBase":6},
  "away":{"runs":2,"hits":4,"errors":1,"leftOnBase":5}}}"#;

#[test]
fn mlb_test_teams() {
    let client = endpoint();
    assert_eq!(client.teams_url(), "http://127.0.0.1:1234/teams?sportId=1");
    let resp = teams_from_body(TEAMS.as_bytes());
    assert!(resp.is_ok(), "{}", resp.err().unwrap().message());
}

#[test]
fn mlb_test_team() {
    let client = endpoint();
    let team_id = 133;
    assert_eq!(client.team_url(team_id), "http://127.0.0.1:1234/teams/133");
    let resp = team_from_body(TEAM.as_bytes());
    assert!(resp.is_ok(), "{}", resp.err().unwrap().message());
}

#[test]
fn mlb_test_schedule() {
    let client = endpoint();
    let date = Date { year: 2019, month: 11, day: 10 };
    assert_eq!(client.schedule_url(&date), "http://127.0.0.1:1234/schedule?date=2019-11-10&sportId=1");
    let resp = schedule_from_body(SCHEDULE.as_bytes());
    assert!(resp.is_ok(), "{}", resp.err().unwrap().message());
}

#[test]
fn mlb_test_schedule_empty() {
    let client = endpoint();
    let date = Date { year: 2019, month: 11, day: 11 };
    assert_eq!(client.schedule_url(&date), "http://127.0.0.1:1234/schedule?date=2019-11-11&sportId=1");
    let resp = schedule_from_body(SCHEDULE_EMPTY.as_bytes());
    assert!(&resp.err().unwrap().message() == "No games for today.");
}

#[test]
fn mlb_test_game_content_pre() {
    let client = endpoint();
    let game_pk = 530_428;
    assert_eq!(client.game_content_url(game_pk), "http://127.0.0.1:1234/game/530428/content");
    let resp = game_content_from_body(CONTENT_PRE.as_bytes());
    assert!(resp.is_ok(), "{}", resp.as_ref().err().unwrap().message());
}

#[test]
fn mlb_test_game_content_post() {
    let client = endpoint();
    let game_pk = 530_429;
    assert_eq!(client.game_content_url(game_pk), "http://127.0.0.1:1234/game/530429/content");
    let resp = game_content_from_body(CONTENT_POST.as_bytes());
    assert!(resp.is_ok(), "{}", resp.as_ref().err().unwrap().message());
}

#[test]
fn mlb_test_game_linescore_pre() {
    let client = endpoint();
    let game_pk = 530_428;
    assert_eq!(client.game_linescore_url(game_pk), "http://127.0.0.1:1234/game/530428/linescore");
    let resp = game_linescore_from_body(LINESCORE_PRE.as_bytes());
    assert!(resp.is_ok(), "{}", resp.as_ref().err().unwrap().message());
}

#[test]
fn mlb_test_game_linescore_post() {
    let client = endpoint();
    let game_pk = 530_429;
    assert_eq!(client.game_linescore_url(game_pk), "http://127.0.0.1:1234/game/530429/linescore");
    let resp = game_linescore_from_body(LINESCORE_POST.as_bytes());
    assert!(resp.is_ok(), "{}", resp.as_ref().err().unwrap().message());
}

#[test]
fn mlb_content_with_malformed_preview_keeps_media() {
    let content = game_content_from_body(CONTENT_PRE.as_bytes()).unwrap();
    assert!(content.editorial.preview.is_none());
    let media = content.media.unwrap();
    let epg = media.epg.unwrap();
    assert_eq!(epg.len(), 1);
    assert_eq!(epg[0].title, "MLBTV");
    assert_eq!(epg[0].items[0].call_letters.as_deref(), Some("NBCS"));
    assert_eq!(epg[0].items[0].id, 1);
}

#[test]
fn mlb_content_post_reads_articles() {
    let content = game_content_from_body(CONTENT_POST.as_bytes()).unwrap();
    let preview = content.editorial.preview.unwrap();
    assert_eq!(preview.title, "Preview");
    let items = preview.items.unwrap();
    assert_eq!(items[0].kind, "article");
    assert_eq!(items[0].headline, "A's win");
    // the image lacks its cuts, so the article's media is absent and the article stays
    assert!(items[0].media.is_none());
}

#[test]
fn mlb_content_without_editorial_or_media() {
    let content = game_content_from_body(b"{}").unwrap();
    assert!(content.editorial.preview.is_none());
    assert!(content.media.is_none());
}

#[test]
fn mlb_linescore_reads_both_sides() {
    let line = game_linescore_from_body(LINESCORE_POST.as_bytes()).unwrap();
    assert_eq!(line.current_inning, 9);
    let teams = line.teams.unwrap();
    assert_eq!((teams.home.runs, teams.home.hits, teams.home.errors, teams.home.left_on_base), (5, 9, 0, 6));
    assert_eq!((teams.away.runs, teams.away.hits, teams.away.errors, teams.away.left_on_base), (2, 4, 1, 5));
}

#[test]
fn mlb_linescore_without_teams() {
    let line = game_linescore_from_body(LINESCORE_PRE.as_bytes()).unwrap();
    assert_eq!(line.current_inning, 0);
    assert!(line.teams.is_none());
}

#[test]
fn mlb_teams_reads_fields_and_defaults() {
    let teams = teams_from_body(TEAMS.as_bytes()).unwrap();
    assert_eq!(teams.len(), 2);
    assert_eq!(teams[0].id, 133);
    assert_eq!(teams[0].abbreviation.as_deref(), Some("OAK"));
    assert_eq!(teams[0].first_year_of_play.as_deref(), Some("1901"));
    assert!(teams[0].active);
    assert_eq!(teams[1].abbreviation, None);
    assert_eq!(teams[1].location_name, None);
}

#[test]
fn mlb_teams_requires_the_list() {
    let resp = teams_from_body(br#"{"copyright":"c"}"#);
    assert_eq!(resp.err(), Some(statsapi::error::ClientError::Decode));
}

#[test]
fn mlb_sport_ids() {
    assert_eq!(Sport::Mlb.id(), 1);
    assert_eq!(Sport::Roa.id(), 5442);
    assert_eq!(Sport::Hsb.id_text(), "586");
    let aaa = Endpoint { base: String::from("https://x"), sport: Sport::Aaa };
    assert_eq!(aaa.teams_url(), "https://x/teams?sportId=11");
    assert_eq!(aaa.all_teams_url(), "https://x/teams");
    assert_eq!(aaa.todays_schedule_url(), "https://x/schedule?sportId=11");
}

#[test]
fn mlb_team_not_found_on_empty_list() {
    let resp = team_from_body(br#"{"teams":[]}"#);
    assert_eq!(resp.err(), Some(statsapi::error::ClientError::TeamNotFound));
    let team = team_from_body(TEAM.as_bytes()).unwrap();
    assert_eq!(team.id, 133);
    assert_eq!(team.name, "Oakland Athletics");
}

#[test]
fn mlb_schedule_for_a_date() {
    let schedule = schedule_from_body(SCHEDULE.as_bytes()).unwrap();
    assert_eq!(schedule.date, Date { year: 2019, month: 11, day: 10 });
    assert_eq!(schedule.games.len(), 1);
    assert_eq!(schedule.games[0].game_pk, 599377);
    assert_eq!(schedule.games[0].teams.home.score, Some(5));
    assert_eq!(schedule.games[0].teams.away.detail.name, "Samurai Japan");
}

#[test]
fn mlb_no_games_is_not_an_empty_schedule() {
    let resp = schedule_from_body(SCHEDULE_EMPTY.as_bytes());
    assert_eq!(resp.err(), Some(statsapi::error::ClientError::NoGames));
    let resp = schedule_from_body(br#"{"copyright":"c"}"#);
    assert_eq!(resp.err(), Some(statsapi::error::ClientError::NoGames));
}
