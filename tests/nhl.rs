use statsapi::client::nhl::{
    first_team, game_content_from_body, game_linescore_from_body, schedule_from_body, team_from_body,
    teams_from_body, Endpoint,
};
use statsapi::decode::{Date, Timestamp};
use statsapi::error::ClientError;
use statsapi::model::nhl::{Response, ResponseType, TeamsResponse};

fn endpoint() -> Endpoint {
    Endpoint { base: String::from("http://127.0.0.1:1234") }
}

const TEAMS: &str = r#"{"copyright":"c","teams":[
  {"id":1,"name":"New Jersey Devils","link":"/api/v1/teams/1","abbreviation":"NJD","teamName":"Devils",
   "locationName":"New Jersey","firstYearOfPlay":"1982","shortName":"New Jersey",
   "officialSiteUrl":"http://www.newjerseydevils.com/","franchiseId":23,"active":true},
  {"id":2,"name":"New York Islanders","link":"/api/v1/teams/2","franchiseId":22,"active":true}]}"#;

const TEAM: &str = r#"{"teams":[{"id":1,"name":"New Jersey Devils","link":"/api/v1/teams/1",
  "abbreviation":"NJD","teamName":"Devils","locationName":"New Jersey","franchiseId":23,"active":true}]}"#;

const SCHEDULE: &str = r#"{"totalItems":1,"dates":[{"date":"2019-12-10","games":[
  {"gamePk":2019020481,"link":"/api/v1/game/2019020481/feed/live","gameType":"R","season":"20192020",
   "gameDate":"2019-12-11T00:00:00Z","status":{"abstractGameState":"Preview"},
   "teams":{"away":{"leagueRecord":{"wins":15},"score":0,"team":{"id":7,"name":"Buffalo Sabres","link":"/api/v1/teams/7"}},
            "home":{"score":0,"team":{"id":6,"name":"Boston Bruins","link":"/api/v1/teams/6"}}}}]}]}"#;

const SCHEDULE_EMPTY: &str = r#"{"copyright":"c","totalItems":0,"dates":[]}"#;

const CONTENT_PRE: &str = r#"{"editorial":{"preview":{"title":"Preview","items":[]}},
  "media":{"milestones":{"title":"Milestones","streamStart":null,"items":null},
           "epg":[{"title":"NHLTV","items":[{"mediaFeedType":"HOME","callLetters":"MSG+","mediaState":"MEDIA_OFF","mediaPlaybackId":"1"}]},
                  {"title":"Audio","items":"none"}]}}"#;

const CONTENT_POST: &str = r#"{"editorial":{"preview":{"title":"Preview"}},
  "media":{"milestones":{"streamStart":"2019-12-11T00:10:00Z","items":[
     {"description":"Goal","type":"GOAL","period":"1","periodTime":"05:00","ordinalNum":"1st","teamId":"6",
      "statsEventId":"88","highlight":{"title":"Pastrnak scores","blurb":"b","description":"d",
      "playbacks":[{"name":"FLASH_192K_320X180","url":"https://x/a.mp4"}]}},
     {"description":"Start","type":"PERIOD_START","highlight":[]}]},
   "epg":[]}}"#;

const LINESCORE_PRE: &str = r#"{"copyright":"c","currentPeriod":0,"periods":[]}"#;

const LINESCORE_POST: &str = r#"{"currentPeriod":3,"teams":{
  "home":{"team":{"id":6,"name":"Boston Bruins","link":"/api/v1/teams/6"},"goals":3,"shotsOnGoal":30},
  "away":{"team":{"id":7,"name":"Buffalo Sabres","link":"/api/v1/teams/7"},"goals":2}}}"#;

#[test]
fn nhl_test_teams() {
    let client = endpoint();
    assert_eq!(client.teams_url(), "http://127.0.0.1:1234/teams");
    let resp = teams_from_body(TEAMS.as_bytes());
    assert!(resp.is_ok(), "{}", resp.err().unwrap().message());
}

#[test]
fn nhl_test_team() {
    let client = endpoint();
    let team_id = 1;
    assert_eq!(client.team_url(team_id), "http://127.0.0.1:1234/teams/1");
    let resp = team_from_body(TEAM.as_bytes());
    assert!(resp.is_ok(), "{}", resp.err().unwrap().message());
}

#[test]
fn nhl_test_schedule() {
    let client = endpoint();
    let date = Date { year: 2019, month: 12, day: 10 };
    assert_eq!(client.schedule_url(&date), "http://127.0.0.1:1234/schedule?date=2019-12-10");
    let resp = schedule_from_body(SCHEDULE.as_bytes());
    assert!(resp.is_ok(), "{}", resp.err().unwrap().message());
}

#[test]
fn nhl_test_schedule_empty() {
    let client = endpoint();
    let date = Date { year: 2019, month: 12, day: 11 };
    assert_eq!(client.schedule_url(&date), "http://127.0.0.1:1234/schedule?date=2019-12-11");
    let resp = schedule_from_body(SCHEDULE_EMPTY.as_bytes());
    assert!(&resp.err().unwrap().message() == "No games for today.");
}

#[test]
fn nhl_test_game_content_pre() {
    let client = endpoint();
    let game_pk = 2_019_020_400;
    assert_eq!(client.game_content_url(game_pk), "http://127.0.0.1:1234/game/2019020400/content");
    let resp = game_content_from_body(CONTENT_PRE.as_bytes());
    assert!(resp.is_ok(), "{}", resp.as_ref().err().unwrap().message());
}

#[test]
fn nhl_test_game_content_post() {
    let client = endpoint();
    let game_pk = 2_019_020_401;
    assert_eq!(client.game_content_url(game_pk), "http://127.0.0.1:1234/game/2019020401/content");
    let resp = game_content_from_body(CONTENT_POST.as_bytes());
    assert!(resp.is_ok(), "{}", resp.as_ref().err().unwrap().message());
}

#[test]
fn nhl_test_game_linescore_pre() {
    let client = endpoint();
    let game_pk = 2_019_020_400;
    assert_eq!(client.game_linescore_url(game_pk), "http://127.0.0.1:1234/game/2019020400/linescore");
    let resp = game_linescore_from_body(LINESCORE_PRE.as_bytes());
    assert!(resp.is_ok(), "{}", resp.as_ref().err().unwrap().message());
}

#[test]
fn nhl_test_game_linescore_post() {
    let client = endpoint();
    let game_pk = 2_019_020_401;
    assert_eq!(client.game_linescore_url(game_pk), "http://127.0.0.1:1234/game/2019020401/linescore");
    let resp = game_linescore_from_body(LINESCORE_POST.as_bytes());
    assert!(resp.is_ok(), "{}", resp.as_ref().err().unwrap().message());
}

#[test]
fn nhl_teams_scenario_one_team() {
    let teams = teams_from_body(br#"{"teams":[{"id":1,"name":"A"}]}"#).unwrap();
    assert_eq!(teams.len(), 1);
    assert_eq!(teams[0].id, 1);
    assert_eq!(teams[0].name, "A");
    assert_eq!(teams[0].abbreviation, "");
    assert_eq!(teams[0].franchise_id, 0);
    assert!(!teams[0].active);
    assert_eq!(teams[0].short_name, None);
}

#[test]
fn nhl_team_found_and_not_found() {
    let team = team_from_body(TEAM.as_bytes()).unwrap();
    assert_eq!(team.id, 1);
    assert_eq!(team.abbreviation, "NJD");
    assert_eq!(team.franchise_id, 23);
    let none = team_from_body(br#"{"teams":[]}"#);
    assert_eq!(none.err(), Some(ClientError::TeamNotFound));
    assert_eq!(ClientError::TeamNotFound.message(), "Failed to get team response.");
}

#[test]
fn nhl_team_takes_the_first_of_several() {
    let response = statsapi::decode::Decode::decode(&statsapi::json::parse_json(TEAMS.as_bytes()).unwrap());
    let response: TeamsResponse = response.unwrap();
    assert_eq!(first_team(response).unwrap().id, 1);
}

#[test]
fn nhl_teams_missing_list_is_empty() {
    let teams = teams_from_body(br#"{"copyright":"c"}"#).unwrap();
    assert!(teams.is_empty());
}

#[test]
fn nhl_team_without_id_is_a_decode_error() {
    let resp = teams_from_body(br#"{"teams":[{"name":"A","active":true}]}"#);
    assert_eq!(resp.err(), Some(ClientError::Decode));
    let resp = team_from_body(br#"{"teams":[{"id":-1,"name":"A"}]}"#);
    assert_eq!(resp.err(), Some(ClientError::Decode));
}

#[test]
fn nhl_schedule_reads_games() {
    let schedule = schedule_from_body(SCHEDULE.as_bytes()).unwrap();
    assert_eq!(schedule.date, Date { year: 2019, month: 12, day: 10 });
    assert_eq!(schedule.games.len(), 1);
    let game = &schedule.games[0];
    assert_eq!(game.game_pk, 2019020481);
    assert_eq!(game.game_type, "R");
    assert_eq!(game.season, "20192020");
    assert_eq!(game.date, Timestamp { seconds: 1576022400, nanos: 0 });
    assert_eq!(game.teams.away.score, Some(0));
    assert_eq!(game.teams.away.detail.id, 7);
    assert_eq!(game.teams.home.detail.name, "Boston Bruins");
}

#[test]
fn nhl_schedule_takes_the_last_date() {
    let body = br#"{"dates":[{"date":"2019-12-10","games":[]},{"date":"2019-12-11"}]}"#;
    let schedule = schedule_from_body(body).unwrap();
    assert_eq!(schedule.date, Date { year: 2019, month: 12, day: 11 });
    assert!(schedule.games.is_empty());
}

#[test]
fn nhl_schedule_without_date_is_a_decode_error() {
    let body = br#"{"dates":[{"games":[]}]}"#;
    assert_eq!(schedule_from_body(body).err(), Some(ClientError::Decode));
    let body = br#"{"dates":[{"date":"2019-13-40"}]}"#;
    assert_eq!(schedule_from_body(body).err(), Some(ClientError::Decode));
}

#[test]
fn nhl_content_isolates_broken_epg_items() {
    let content = game_content_from_body(CONTENT_PRE.as_bytes()).unwrap();
    assert_eq!(content.editorial.preview.as_ref().unwrap().title, "Preview");
    assert_eq!(content.media.epg.len(), 2);
    assert_eq!(content.media.epg[0].items.as_ref().unwrap()[0].call_letters, "MSG+");
    assert!(content.media.epg[1].items.is_none());
    assert_eq!(content.media.epg[1].title, "Audio");
    assert!(content.media.milestones.stream_start.is_none());
    assert!(content.media.milestones.items.is_none());
}

#[test]
fn nhl_content_reads_milestones() {
    let content = game_content_from_body(CONTENT_POST.as_bytes()).unwrap();
    let ms = content.media.milestones;
    assert_eq!(ms.stream_start, Some(Timestamp { seconds: 1576023000, nanos: 0 }));
    let items = ms.items.unwrap();
    assert_eq!(items.len(), 2);
    let h = items[0].highlight.as_ref().unwrap();
    assert_eq!(h.title, "Pastrnak scores");
    assert_eq!(h.playbacks.as_ref().unwrap()[0].url, "https://x/a.mp4");
    assert_eq!(items[1].kind, "PERIOD_START");
    assert_eq!(items[1].period, "");
    assert!(items[1].highlight.is_none());
}

#[test]
fn nhl_content_without_preview() {
    let body = br#"{"editorial":{},"media":{"milestones":{},"epg":[]}}"#;
    let content = game_content_from_body(body).unwrap();
    assert!(content.editorial.preview.is_none());
    assert!(content.media.epg.is_empty());
    assert_eq!(content.media.milestones.items, None);
    assert_eq!(content.media.milestones.stream_start, None);
    let body = br#"{"editorial":{"preview":7},"media":{"epg":[{"title":"NHLTV"}]}}"#;
    let content = game_content_from_body(body).unwrap();
    assert!(content.editorial.preview.is_none());
    assert_eq!(content.media.epg[0].title, "NHLTV");
    assert!(content.media.epg[0].items.is_none());
}

#[test]
fn nhl_content_without_editorial_or_media() {
    let content = game_content_from_body(b"{}").unwrap();
    assert!(content.editorial.preview.is_none());
    assert!(content.media.epg.is_empty());
    assert!(content.media.milestones.items.is_none());
    let content = game_content_from_body(br#"{"editorial":[],"media":"none"}"#).unwrap();
    assert!(content.editorial.preview.is_none());
    assert!(content.media.epg.is_empty());
    assert!(game_content_from_body(b"[]").is_err());
}

#[test]
fn nhl_linescore_without_teams_keeps_period() {
    let body = br#"{"currentPeriod":2,"currentPeriodOrdinal":"2nd"}"#;
    let line = game_linescore_from_body(body).unwrap();
    assert_eq!(line.current_period, 2);
    assert!(line.teams.is_none());
    let body = br#"{"currentPeriod":2,"teams":{"home":{"goals":1}}}"#;
    let line = game_linescore_from_body(body).unwrap();
    assert_eq!(line.current_period, 2);
    assert!(line.teams.is_none());
}

#[test]
fn nhl_content_with_wrongly_typed_highlight() {
    let body = CONTENT_POST.replace(r#""highlight":{"title":"Pastrnak scores""#, r#""highlight":{"title":5"#);
    let content = game_content_from_body(body.as_bytes()).unwrap();
    let before = game_content_from_body(CONTENT_POST.as_bytes()).unwrap();
    let items = content.media.milestones.items.as_ref().unwrap();
    assert!(items[0].highlight.is_none());
    assert_eq!(items[0].description, "Goal");
    assert_eq!(items[0].kind, "GOAL");
    assert_eq!(items[1], before.media.milestones.items.as_ref().unwrap()[1]);
    assert_eq!(content.editorial, before.editorial);
    assert_eq!(content.media.epg, before.media.epg);
    assert_eq!(content.media.milestones.stream_start, before.media.milestones.stream_start);
}

#[test]
fn nhl_linescore_reads_both_sides() {
    let line = game_linescore_from_body(LINESCORE_POST.as_bytes()).unwrap();
    assert_eq!(line.current_period, 3);
    let teams = line.teams.unwrap();
    assert_eq!(teams.home.goals, 3);
    assert_eq!(teams.home.detail.name, "Boston Bruins");
    assert_eq!(teams.away.goals, 2);
    assert_eq!(teams.away.detail.id, 7);
}

#[test]
fn nhl_dispatch_by_kind() {
    match ResponseType::TeamsResponse.deserialize(TEAM.as_bytes()) {
        Ok(Response::TeamsResponse(r)) => assert_eq!(r.teams[0].id, 1),
        _ => panic!("expected teams"),
    }
    match ResponseType::GameLinescoreResponse.deserialize(LINESCORE_POST.as_bytes()) {
        Ok(Response::GameLinescoreResponse(r)) => assert_eq!(r.current_period, 3),
        _ => panic!("expected a line score"),
    }
    match ResponseType::ScheduleResponse.deserialize(SCHEDULE_EMPTY.as_bytes()) {
        Ok(Response::ScheduleResponse(r)) => assert!(r.dates.is_empty()),
        _ => panic!("expected a schedule"),
    }
    assert!(ResponseType::GameContentResponse.deserialize(b"not json").is_err());
}

#[test]
fn nhl_body_that_is_not_json() {
    assert_eq!(teams_from_body(b"<html>").err(), Some(ClientError::Decode));
    assert_eq!(schedule_from_body(b"").err(), Some(ClientError::Decode));
    assert_eq!(game_linescore_from_body(b"[1,2]").err(), Some(ClientError::Decode));
    assert_eq!(ClientError::Decode.message(), "Failed to decode response.");
    assert_eq!(ClientError::NoGames.message(), "No games for today.");
}

#[test]
fn nhl_todays_schedule_has_no_query() {
    assert_eq!(endpoint().todays_schedule_url(), "http://127.0.0.1:1234/schedule");
}
