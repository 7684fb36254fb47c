use vstd::prelude::*;
use crate::client::{
    decimal, decimal_text, form_plain, form_plain_char, lemma_date_name_plain, lemma_date_plain,
    lemma_decimal_plain, decode_body, plain_url, decoded_body, date_text, format_date, get_url, pair_views,
    url_of,
};
use crate::decode::{views, Date};
use crate::error::ClientError;
use crate::model::mlb::{
    GameContentResponse, GameLinescoreResponse, Schedule, ScheduleResponse, Team, TeamsResponse,
};

verus! {

/// A league level of the baseball service, which team and schedule queries filter on.
#[derive(Clone, Copy, Debug, PartialEq, Eq, Structural)]
pub enum Sport {
    Mlb,
    Aaa,
    Aax,
    Afa,
    Afx,
    Asx,
    Roa,
    Rok,
    Win,
    Bbl,
    Min,
    Ind,
    Jml,
    Int,
    Nat,
    Nae,
    Nav,
    Nas,
    Naw,
    Bbc,
    Hsb,
}

/// The number that the service gives a sport.
pub open spec fn sport_id(s: Sport) -> u32 {
    match s {
        Sport::Mlb => 1,
        Sport::Aaa => 11,
        Sport::Aax => 12,
        Sport::Afa => 13,
        Sport::Afx => 14,
        Sport::Asx => 15,
        Sport::Roa => 5442,
        Sport::Rok => 16,
        Sport::Win => 17,
        Sport::Bbl => 8,
        Sport::Min => 21,
        Sport::Ind => 23,
        Sport::Jml => 31,
        Sport::Int => 51,
        Sport::Nat => 508,
        Sport::Nae => 509,
        Sport::Nav => 600,
        Sport::Nas => 510,
        Sport::Naw => 512,
        Sport::Bbc => 22,
        Sport::Hsb => 586,
    }
}

impl Sport {
    /// The number that the service gives this sport.
    pub fn id(&self) -> (r: u32)
        ensures
            r == sport_id(*self),
    {
        match self {
            Sport::Mlb => 1,
            Sport::Aaa => 11,
            Sport::Aax => 12,
            Sport::Afa => 13,
            Sport::Afx => 14,
            Sport::Asx => 15,
            Sport::Roa => 5442,
            Sport::Rok => 16,
            Sport::Win => 17,
            Sport::Bbl => 8,
            Sport::Min => 21,
            Sport::Ind => 23,
            Sport::Jml => 31,
            Sport::Int => 51,
            Sport::Nat => 508,
            Sport::Nae => 509,
            Sport::Nav => 600,
            Sport::Nas => 510,
            Sport::Naw => 512,
            Sport::Bbc => 22,
            Sport::Hsb => 586,
        }
    }

    /// The number of this sport in decimal, as a query writes it.
    pub fn id_text(&self) -> (r: String)
        ensures
            r@ == decimal_text(sport_id(*self) as nat),
    {
        decimal(self.id() as u64)
    }
}

/// The name `sportId` and a sport's number are written as they are.
proof fn lemma_sport_pair_plain(s: Sport)
    ensures
        form_plain(seq![("sportId"@, decimal_text(sport_id(s) as nat))]),
{
    reveal_strlit("sportId");
    assert("sportId"@.len() == 7);
    assert forall|k: int| 0 <= k < "sportId"@.len() implies form_plain_char(#[trigger] "sportId"@[k]) by {
        assert(k == 0 || k == 1 || k == 2 || k == 3 || k == 4 || k == 5 || k == 6);
    }
    lemma_decimal_plain(sport_id(s) as nat);
}

/// Where the requests to the baseball service go.
pub struct Endpoint {
    /// The address that every path is relative to, without a trailing `/`.
    pub base: String,
    /// The level that team and schedule queries are filtered on.
    pub sport: Sport,
}

impl Endpoint {
    /// The request for every team of the endpoint's sport.
    pub fn teams_url(&self) -> (r: String)
        ensures
            r@ == url_of(self.base@, "teams"@, seq![("sportId"@, decimal_text(sport_id(self.sport) as nat))]),
            r@ == plain_url(self.base@, "teams"@, seq![("sportId"@, decimal_text(sport_id(self.sport) as nat))]),
    {
        let path = String::from_str("teams");
        let mut pairs: Vec<(String, String)> = Vec::new();
        pairs.push((String::from_str("sportId"), self.sport.id_text()));
        assert(pair_views(pairs@) =~= seq![("sportId"@, decimal_text(sport_id(self.sport) as nat))]);
        proof {
            lemma_sport_pair_plain(self.sport);
        }
        get_url(self.base.as_str(), path.as_str(), &pairs)
    }

    /// The request for every team, whatever its sport; an exhibition game may bring in a team of another level.
    pub fn all_teams_url(&self) -> (r: String)
        ensures
            r@ == url_of(self.base@, "teams"@, Seq::<(Seq<char>, Seq<char>)>::empty()),
    {
        let path = String::from_str("teams");
        let mut pairs: Vec<(String, String)> = Vec::new();
        assert(pair_views(pairs@) =~= Seq::<(Seq<char>, Seq<char>)>::empty());
        get_url(self.base.as_str(), path.as_str(), &pairs)
    }

    /// The request for one team.
    pub fn team_url(&self, team_id: u32) -> (r: String)
        ensures
            r@ == url_of(self.base@, "teams/"@ + decimal_text(team_id as nat), Seq::<(Seq<char>, Seq<char>)>::empty()),
    {
        let mut path = String::from_str("teams/");
        path.append(decimal(team_id as u64).as_str());
        let mut pairs: Vec<(String, String)> = Vec::new();
        assert(pair_views(pairs@) =~= Seq::<(Seq<char>, Seq<char>)>::empty());
        get_url(self.base.as_str(), path.as_str(), &pairs)
    }

    /// The request for today's schedule.
    pub fn todays_schedule_url(&self) -> (r: String)
        ensures
            r@ == url_of(self.base@, "schedule"@, seq![("sportId"@, decimal_text(sport_id(self.sport) as nat))]),
            r@ == plain_url(self.base@, "schedule"@, seq![("sportId"@, decimal_text(sport_id(self.sport) as nat))]),
    {
        let path = String::from_str("schedule");
        let mut pairs: Vec<(String, String)> = Vec::new();
        pairs.push((String::from_str("sportId"), self.sport.id_text()));
        assert(pair_views(pairs@) =~= seq![("sportId"@, decimal_text(sport_id(self.sport) as nat))]);
        proof {
            lemma_sport_pair_plain(self.sport);
        }
        get_url(self.base.as_str(), path.as_str(), &pairs)
    }

    /// The request for the schedule of a date.
    pub fn schedule_url(&self, date: &Date) -> (r: String)
        ensures
            r@ == url_of(self.base@, "schedule"@, seq![("date"@, date_text(*date)), ("sportId"@, decimal_text(sport_id(self.sport) as nat))]),
            0 <= date.year <= 9999 ==> r@ == plain_url(
                self.base@,
                "schedule"@,
                seq![("date"@, date_text(*date)), ("sportId"@, decimal_text(sport_id(self.sport) as nat))],
            ),
    {
        let path = String::from_str("schedule");
        let mut pairs: Vec<(String, String)> = Vec::new();
        pairs.push((String::from_str("date"), format_date(date)));
        pairs.push((String::from_str("sportId"), self.sport.id_text()));
        assert(pair_views(pairs@) =~= seq![("date"@, date_text(*date)), ("sportId"@, decimal_text(sport_id(self.sport) as nat))]);
        proof {
            if 0 <= date.year <= 9999 {
                lemma_sport_pair_plain(self.sport);
                lemma_date_name_plain();
                lemma_date_plain(*date);
                let pv = pair_views(pairs@);
                assert forall|i: int| 0 <= i < pv.len() implies (forall|k: int|
                    0 <= k < (#[trigger] pv[i]).0.len() ==> form_plain_char(pv[i].0[k])) && (forall|k: int|
                    0 <= k < pv[i].1.len() ==> form_plain_char(pv[i].1[k])) by {
                    assert(i == 0 || i == 1);
                    assert(pv[1] == seq![("sportId"@, decimal_text(sport_id(self.sport) as nat))][0]);
                }
            }
        }
        get_url(self.base.as_str(), path.as_str(), &pairs)
    }

    /// The request for the content of a game.
    pub fn game_content_url(&self, game_pk: u64) -> (r: String)
        ensures
            r@ == url_of(self.base@, "game/"@ + decimal_text(game_pk as nat) + "/content"@, Seq::<(Seq<char>, Seq<char>)>::empty()),
    {
        let mut path = String::from_str("game/");
        path.append(decimal(game_pk).as_str());
        path.append("/content");
        let mut pairs: Vec<(String, String)> = Vec::new();
        assert(pair_views(pairs@) =~= Seq::<(Seq<char>, Seq<char>)>::empty());
        get_url(self.base.as_str(), path.as_str(), &pairs)
    }

    /// The request for the line score of a game.
    pub fn game_linescore_url(&self, game_pk: u64) -> (r: String)
        ensures
            r@ == url_of(self.base@, "game/"@ + decimal_text(game_pk as nat) + "/linescore"@, Seq::<(Seq<char>, Seq<char>)>::empty()),
    {
        let mut path = String::from_str("game/");
        path.append(decimal(game_pk).as_str());
        path.append("/linescore");
        let mut pairs: Vec<(String, String)> = Vec::new();
        assert(pair_views(pairs@) =~= Seq::<(Seq<char>, Seq<char>)>::empty());
        get_url(self.base.as_str(), path.as_str(), &pairs)
    }

}

/// The first team of a team response; a response without teams is `TeamNotFound`.
pub fn first_team(response: TeamsResponse) -> (r: Result<Team, ClientError>)
    ensures
        response@.teams.len() > 0 ==> r is Ok && r->Ok_0@ == response@.teams[0],
        response@.teams.len() == 0 ==> r == Err::<Team, ClientError>(ClientError::TeamNotFound),
{
    let mut teams = response.teams;
    if teams.len() == 0 {
        Err(ClientError::TeamNotFound)
    } else {
        Ok(teams.remove(0))
    }
}

/// The teams that a team response body holds.
pub fn teams_from_body(body: &[u8]) -> (r: Result<Vec<Team>, ClientError>)
    ensures
        match decoded_body::<TeamsResponse>(body@) {
            Some(m) => r is Ok && views(r->Ok_0@) == m.teams,
            None => r == Err::<Vec<Team>, ClientError>(ClientError::Decode),
        },
{
    match decode_body::<TeamsResponse>(body) {
        Ok(response) => Ok(response.teams),
        Err(e) => Err(e),
    }
}

/// The team that a team response body holds: the first, where it holds several.
pub fn team_from_body(body: &[u8]) -> (r: Result<Team, ClientError>)
    ensures
        match decoded_body::<TeamsResponse>(body@) {
            Some(m) => if m.teams.len() > 0 {
                r is Ok && r->Ok_0@ == m.teams[0]
            } else {
                r == Err::<Team, ClientError>(ClientError::TeamNotFound)
            },
            None => r == Err::<Team, ClientError>(ClientError::Decode),
        },
{
    match decode_body::<TeamsResponse>(body) {
        Ok(response) => first_team(response),
        Err(e) => Err(e),
    }
}

/// The schedule that a schedule response body holds: its last date; `NoGames` where it
/// holds no date.
pub fn schedule_from_body(body: &[u8]) -> (r: Result<Schedule, ClientError>)
    ensures
        match decoded_body::<ScheduleResponse>(body@) {
            Some(m) => if m.dates.len() > 0 {
                r is Ok && r->Ok_0@ == m.dates.last()
            } else {
                r == Err::<Schedule, ClientError>(ClientError::NoGames)
            },
            None => r == Err::<Schedule, ClientError>(ClientError::Decode),
        },
{
    match decode_body::<ScheduleResponse>(body) {
        Ok(response) => response.into_schedule(),
        Err(e) => Err(e),
    }
}

/// The content of a game that a response body holds.
pub fn game_content_from_body(body: &[u8]) -> (r: Result<GameContentResponse, ClientError>)
    ensures
        r is Ok <==> decoded_body::<GameContentResponse>(body@) is Some,
        r is Ok ==> r->Ok_0@ == decoded_body::<GameContentResponse>(body@)->0,
        r is Err ==> r->Err_0 == ClientError::Decode,
{
    decode_body::<GameContentResponse>(body)
}

/// The line score of a game that a response body holds.
pub fn game_linescore_from_body(body: &[u8]) -> (r: Result<GameLinescoreResponse, ClientError>)
    ensures
        r is Ok <==> decoded_body::<GameLinescoreResponse>(body@) is Some,
        r is Ok ==> r->Ok_0@ == decoded_body::<GameLinescoreResponse>(body@)->0,
        r is Err ==> r->Err_0 == ClientError::Decode,
{
    decode_body::<GameLinescoreResponse>(body)
}

} // verus!
