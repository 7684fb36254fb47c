use vstd::prelude::*;
use crate::client::{
    decimal, decimal_text, lemma_date_name_plain, lemma_date_plain, plain_url, decode_body, decoded_body, date_text, format_date, get_url, pair_views,
    url_of,
};
use crate::decode::{views, Date};
use crate::error::ClientError;
use crate::model::nhl::{
    GameContentResponse, GameLinescoreResponse, Schedule, ScheduleResponse, Team, TeamsResponse,
};

verus! {

/// Where the requests to the hockey service go.
pub struct Endpoint {
    /// The address that every path is relative to, without a trailing `/`.
    pub base: String,
}

impl Endpoint {
    /// The request for every team.
    pub fn teams_url(&self) -> (r: String)
        ensures
            r@ == url_of(self.base@, "teams"@, Seq::<(Seq<char>, Seq<char>)>::empty()),
    {
        let path = String::from_str("teams");
        let mut pairs: Vec<(String, String)> = Vec::new();
        assert(pair_views(pairs@) =~= Seq::<(Seq<char>, Seq<char>)>::empty());
        get_url(self.base.as_str(), path.as_str(), &pairs)
    }

    /// The request for one team.
    pub fn team_url(&self, team_id: u32) -> (r: String)
        ensures
            r@ == url_of(self.base@, "teams/"@ + decimal_text(team_id as nat), Seq::<(Seq<char>, Seq<char>)>::empty()),
    {
        let mut path = String::from_str("teams/");
        path.append(decimal(team_id as u64).as_str());
        let mut pairs: Vec<(String, String)> = Vec::new();
        assert(pair_views(pairs@) =~= Seq::<(Seq<char>, Seq<char>)>::empty());
        get_url(self.base.as_str(), path.as_str(), &pairs)
    }

    /// The request for today's schedule.
    pub fn todays_schedule_url(&self) -> (r: String)
        ensures
            r@ == url_of(self.base@, "schedule"@, Seq::<(Seq<char>, Seq<char>)>::empty()),
    {
        let path = String::from_str("schedule");
        let mut pairs: Vec<(String, String)> = Vec::new();
        assert(pair_views(pairs@) =~= Seq::<(Seq<char>, Seq<char>)>::empty());
        get_url(self.base.as_str(), path.as_str(), &pairs)
    }

    /// The request for the schedule of a date.
    pub fn schedule_url(&self, date: &Date) -> (r: String)
        ensures
            r@ == url_of(self.base@, "schedule"@, seq![("date"@, date_text(*date))]),
            0 <= date.year <= 9999 ==> r@ == plain_url(self.base@, "schedule"@, seq![("date"@, date_text(*date))]),
    {
        let path = String::from_str("schedule");
        let mut pairs: Vec<(String, String)> = Vec::new();
        pairs.push((String::from_str("date"), format_date(date)));
        assert(pair_views(pairs@) =~= seq![("date"@, date_text(*date))]);
        proof {
            if 0 <= date.year <= 9999 {
                lemma_date_name_plain();
                lemma_date_plain(*date);
            }
        }
        get_url(self.base.as_str(), path.as_str(), &pairs)
    }

    /// The request for the content of a game.
    pub fn game_content_url(&self, game_pk: u64) -> (r: String)
        ensures
            r@ == url_of(self.base@, "game/"@ + decimal_text(game_pk as nat) + "/content"@, Seq::<(Seq<char>, Seq<char>)>::empty()),
    {
        let mut path = String::from_str("game/");
        path.append(decimal(game_pk).as_str());
        path.append("/content");
        let mut pairs: Vec<(String, String)> = Vec::new();
        assert(pair_views(pairs@) =~= Seq::<(Seq<char>, Seq<char>)>::empty());
        get_url(self.base.as_str(), path.as_str(), &pairs)
    }

    /// The request for the line score of a game.
    pub fn game_linescore_url(&self, game_pk: u64) -> (r: String)
        ensures
            r@ == url_of(self.base@, "game/"@ + decimal_text(game_pk as nat) + "/linescore"@, Seq::<(Seq<char>, Seq<char>)>::empty()),
    {
        let mut path = String::from_str("game/");
        path.append(decimal(game_pk).as_str());
        path.append("/linescore");
        let mut pairs: Vec<(String, String)> = Vec::new();
        assert(pair_views(pairs@) =~= Seq::<(Seq<char>, Seq<char>)>::empty());
        get_url(self.base.as_str(), path.as_str(), &pairs)
    }

}

/// The first team of a team response; a response without teams is `TeamNotFound`.
pub fn first_team(response: TeamsResponse) -> (r: Result<Team, ClientError>)
    ensures
        response@.teams.len() > 0 ==> r is Ok && r->Ok_0@ == response@.teams[0],
        response@.teams.len() == 0 ==> r == Err::<Team, ClientError>(ClientError::TeamNotFound),
{
    let mut teams = response.teams;
    if teams.len() == 0 {
        Err(ClientError::TeamNotFound)
    } else {
        Ok(teams.remove(0))
    }
}

/// The teams that a team response body holds.
pub fn teams_from_body(body: &[u8]) -> (r: Result<Vec<Team>, ClientError>)
    ensures
        match decoded_body::<TeamsResponse>(body@) {
            Some(m) => r is Ok && views(r->Ok_0@) == m.teams,
            None => r == Err::<Vec<Team>, ClientError>(ClientError::Decode),
        },
{
    match decode_body::<TeamsResponse>(body) {
        Ok(response) => Ok(response.teams),
        Err(e) => Err(e),
    }
}

/// The team that a team response body holds: the first, where it holds several.
pub fn team_from_body(body: &[u8]) -> (r: Result<Team, ClientError>)
    ensures
        match decoded_body::<TeamsResponse>(body@) {
            Some(m) => if m.teams.len() > 0 {
                r is Ok && r->Ok_0@ == m.teams[0]
            } else {
                r == Err::<Team, ClientError>(ClientError::TeamNotFound)
            },
            None => r == Err::<Team, ClientError>(ClientError::Decode),
        },
{
    match decode_body::<TeamsResponse>(body) {
        Ok(response) => first_team(response),
        Err(e) => Err(e),
    }
}

/// The schedule that a schedule response body holds: its last date; `NoGames` where it
/// holds no date.
pub fn schedule_from_body(body: &[u8]) -> (r: Result<Schedule, ClientError>)
    ensures
        match decoded_body::<ScheduleResponse>(body@) {
            Some(m) => if m.dates.len() > 0 {
                r is Ok && r->Ok_0@ == m.dates.last()
            } else {
                r == Err::<Schedule, ClientError>(ClientError::NoGames)
            },
            None => r == Err::<Schedule, ClientError>(ClientError::Decode),
        },
{
    match decode_body::<ScheduleResponse>(body) {
        Ok(response) => response.into_schedule(),
        Err(e) => Err(e),
    }
}

/// The content of a game that a response body holds.
pub fn game_content_from_body(body: &[u8]) -> (r: Result<GameContentResponse, ClientError>)
    ensures
        r is Ok <==> decoded_body::<GameContentResponse>(body@) is Some,
        r is Ok ==> r->Ok_0@ == decoded_body::<GameContentResponse>(body@)->0,
        r is Err ==> r->Err_0 == ClientError::Decode,
{
    decode_body::<GameContentResponse>(body)
}

/// The line score of a game that a response body holds.
pub fn game_linescore_from_body(body: &[u8]) -> (r: Result<GameLinescoreResponse, ClientError>)
    ensures
        r is Ok <==> decoded_body::<GameLinescoreResponse>(body@) is Some,
        r is Ok ==> r->Ok_0@ == decoded_body::<GameLinescoreResponse>(body@)->0,
        r is Err ==> r->Err_0 == ClientError::Decode,
{
    decode_body::<GameLinescoreResponse>(body)
}

} // verus!
