pub mod mlb;
pub mod nhl;

use vstd::prelude::*;
use crate::decode::{
    date_field, instant_field, list_of, list_or_default, list_or_empty, number_u32, number_u64,
    number_u8, opt_view, opt_views, read_date, read_instant, read_list, read_record, read_u32,
    read_u64, read_u8, record_of, text_or_default, text_or_empty, u32_or_default, u32_or_zero,
    views, Date, Decode, Timestamp,
};
use crate::encode::{
    encode_list_option, encode_record_option, encode_u8_option, encoded_list, lemma_list_round_trip,
    Encode,
};
use crate::json::{lemma_lookup_distinct, member, Json, JsonValue};
use crate::error::ClientError;
pub use nhl::{
    GameContentEditorial, GameContentEpg, GameContentEpgItem, GameContentMedia,
    GameContentMilestoneItem, GameContentMilestoneItemHighlight,
    GameContentMilestoneItemHighlightPlayback, GameContentMilestones, GameContentResponse,
    GameLinescoreResponse, GameLinescoreTeam, GameLinescoreTeamDetail, GameLinescoreTeams, Response,
    ResponseType, Team, TeamsResponse,
};

verus! {

/// The games of the dates that a schedule query covers.
#[derive(Clone, Debug, PartialEq)]
pub struct ScheduleResponse {
    pub dates: Vec<Schedule>,
}

/// The value of a [`ScheduleResponse`].
pub struct ScheduleResponseView {
    pub dates: Seq<ScheduleView>,
}

impl View for ScheduleResponse {
    type V = ScheduleResponseView;

    open spec fn view(&self) -> ScheduleResponseView {
        ScheduleResponseView {
            dates: views(self.dates@),
        }
    }
}

impl Decode for ScheduleResponse {
    open spec fn decoded(j: Json) -> Option<ScheduleResponseView> {
        if j is Object && list_or_empty::<Schedule>(member(j, "dates"@)) is Some {
            Some(
                ScheduleResponseView {
                    dates: list_or_empty::<Schedule>(member(j, "dates"@))->0,
                },
            )
        } else {
            None
        }
    }

    fn decode(j: &JsonValue) -> (r: Option<ScheduleResponse>) {
        if !j.is_object() {
            return None;
        }
        let dates = match list_or_default::<Schedule>(j.member("dates")) {
            Some(v) => v,
            None => {
                return None;
            },
        };
        Some(ScheduleResponse {
            dates,
        })
    }
}

/// The games of one date.
#[derive(Clone, Debug, PartialEq)]
pub struct Schedule {
    pub date: Date,
    pub games: Vec<ScheduleGame>,
}

/// The value of a [`Schedule`].
pub struct ScheduleView {
    pub date: Date,
    pub games: Seq<ScheduleGameView>,
}

impl View for Schedule {
    type V = ScheduleView;

    open spec fn view(&self) -> ScheduleView {
        ScheduleView {
            date: self.date,
            games: views(self.games@),
        }
    }
}

impl Decode for Schedule {
    open spec fn decoded(j: Json) -> Option<ScheduleView> {
        if j is Object && date_field(member(j, "date"@)) is Some && list_or_empty::<ScheduleGame>(member(j, "games"@)) is Some {
            Some(
                ScheduleView {
                    date: date_field(member(j, "date"@))->0,
                    games: list_or_empty::<ScheduleGame>(member(j, "games"@))->0,
                },
            )
        } else {
            None
        }
    }

    fn decode(j: &JsonValue) -> (r: Option<Schedule>) {
        if !j.is_object() {
            return None;
        }
        let date = match read_date(j.member("date")) {
            Some(v) => v,
            None => {
                return None;
            },
        };
        let games = match list_or_default::<ScheduleGame>(j.member("games")) {
            Some(v) => v,
            None => {
                return None;
            },
        };
        Some(Schedule {
            date,
            games,
        })
    }
}

/// One game of a schedule.
#[derive(Clone, Debug, PartialEq)]
pub struct ScheduleGame {
    pub game_pk: u64,
    pub link: String,
    /// When the game starts.
    pub date: Timestamp,
    pub game_type: String,
    pub season: String,
    pub teams: ScheduleGameTeams,
}

/// The value of a [`ScheduleGame`].
pub struct ScheduleGameView {
    pub game_pk: u64,
    pub link: Seq<char>,
    pub date: Timestamp,
    pub game_type: Seq<char>,
    pub season: Seq<char>,
    pub teams: ScheduleGameTeamsView,
}

impl View for ScheduleGame {
    type V = ScheduleGameView;

    open spec fn view(&self) -> ScheduleGameView {
        ScheduleGameView {
            game_pk: self.game_pk,
            link: self.link@,
            date: self.date,
            game_type: self.game_type@,
            season: self.season@,
            teams: self.teams@,
        }
    }
}

impl Decode for ScheduleGame {
    open spec fn decoded(j: Json) -> Option<ScheduleGameView> {
        if j is Object && number_u64(member(j, "gamePk"@)) is Some && text_or_empty(member(j, "link"@)) is Some && instant_field(member(j, "gameDate"@)) is Some && text_or_empty(member(j, "gameType"@)) is Some && text_or_empty(member(j, "season"@)) is Some && record_of::<ScheduleGameTeams>(member(j, "teams"@)) is Some {
            Some(
                ScheduleGameView {
                    game_pk: number_u64(member(j, "gamePk"@))->0,
                    link: text_or_empty(member(j, "link"@))->0,
                    date: instant_field(member(j, "gameDate"@))->0,
                    game_type: text_or_empty(member(j, "gameType"@))->0,
                    season: text_or_empty(member(j, "season"@))->0,
                    teams: record_of::<ScheduleGameTeams>(member(j, "teams"@))->0,
                },
            )
        } else {
            None
        }
    }

    fn decode(j: &JsonValue) -> (r: Option<ScheduleGame>) {
        if !j.is_object() {
            return None;
        }
        let game_pk = match read_u64(j.member("gamePk")) {
            Some(v) => v,
            None => {
                return None;
            },
        };
        let link = match text_or_default(j.member("link")) {
            Some(v) => v,
            None => {
                return None;
            },
        };
        let date = match read_instant(j.member("gameDate")) {
            Some(v) => v,
            None => {
                return None;
            },
        };
        let game_type = match text_or_default(j.member("gameType")) {
            Some(v) => v,
            None => {
                return None;
            },
        };
        let season = match text_or_default(j.member("season")) {
            Some(v) => v,
            None => {
                return None;
            },
        };
        let teams = match read_record::<ScheduleGameTeams>(j.member("teams")) {
            Some(v) => v,
            None => {
                return None;
            },
        };
        Some(ScheduleGame {
            game_pk,
            link,
            date,
            game_type,
            season,
            teams,
        })
    }
}

/// The two sides of a scheduled game.
#[derive(Clone, Debug, PartialEq)]
pub struct ScheduleGameTeams {
    pub away: ScheduleGameTeam,
    pub home: ScheduleGameTeam,
}

/// The value of a [`ScheduleGameTeams`].
pub struct ScheduleGameTeamsView {
    pub away: ScheduleGameTeamView,
    pub home: ScheduleGameTeamView,
}

impl View for ScheduleGameTeams {
    type V = ScheduleGameTeamsView;

    open spec fn view(&self) -> ScheduleGameTeamsView {
        ScheduleGameTeamsView {
            away: self.away@,
            home: self.home@,
        }
    }
}

impl Decode for ScheduleGameTeams {
    open spec fn decoded(j: Json) -> Option<ScheduleGameTeamsView> {
        if j is Object && record_of::<ScheduleGameTeam>(member(j, "away"@)) is Some && record_of::<ScheduleGameTeam>(member(j, "home"@)) is Some {
            Some(
                ScheduleGameTeamsView {
                    away: record_of::<ScheduleGameTeam>(member(j, "away"@))->0,
                    home: record_of::<ScheduleGameTeam>(member(j, "home"@))->0,
                },
            )
        } else {
            None
        }
    }

    fn decode(j: &JsonValue) -> (r: Option<ScheduleGameTeams>) {
        if !j.is_object() {
            return None;
        }
        let away = match read_record::<ScheduleGameTeam>(j.member("away")) {
            Some(v) => v,
            None => {
                return None;
            },
        };
        let home = match read_record::<ScheduleGameTeam>(j.member("home")) {
            Some(v) => v,
            None => {
                return None;
            },
        };
        Some(ScheduleGameTeams {
            away,
            home,
        })
    }
}

impl Encode for ScheduleGameTeams {
    open spec fn encoded(m: ScheduleGameTeamsView) -> Json {
        Json::Object(
            seq![
                ("away"@, ScheduleGameTeam::encoded(m.away)),
                ("home"@, ScheduleGameTeam::encoded(m.home)),
            ],
        )
    }

    fn encode(&self) -> (r: JsonValue) {
        let mut members: Vec<(String, JsonValue)> = Vec::new();
        members.push((String::from_str("away"), self.away.encode()));
        members.push((String::from_str("home"), self.home.encode()));
        let r = JsonValue::Object(members);
        proof {
            reveal_with_fuel(<JsonValue as View>::view, 2);
        }
        assert(r@->Object_0 =~= Self::encoded(self@)->Object_0);
        r
    }

    proof fn lemma_round_trip(m: ScheduleGameTeamsView) {
        reveal_strlit("away");
        reveal_strlit("home");
        assert("away"@.len() == 4);
        assert("home"@.len() == 4);
        assert("home"@[0] == 'h');
        assert("away"@[0] == 'a');
        let members = Self::encoded(m)->Object_0;
        assert forall|a: int, b: int| 0 <= a < b < 2 implies members[a].0 != members[b].0 by {
            assert(a == 0);
            assert(b == 1);
        }
        lemma_lookup_distinct(members);
        ScheduleGameTeam::lemma_round_trip(m.away);
        ScheduleGameTeam::lemma_round_trip(m.home);
    }
}

/// One side of a scheduled game.
#[derive(Clone, Debug, PartialEq)]
pub struct ScheduleGameTeam {
    /// Absent before the game.
    pub score: Option<u8>,
    pub detail: ScheduleGameTeamDetail,
}

/// The value of a [`ScheduleGameTeam`].
pub struct ScheduleGameTeamView {
    pub score: Option<u8>,
    pub detail: ScheduleGameTeamDetailView,
}

impl View for ScheduleGameTeam {
    type V = ScheduleGameTeamView;

    open spec fn view(&self) -> ScheduleGameTeamView {
        ScheduleGameTeamView {
            score: self.score,
            detail: self.detail@,
        }
    }
}

impl Decode for ScheduleGameTeam {
    open spec fn decoded(j: Json) -> Option<ScheduleGameTeamView> {
        if j is Object && record_of::<ScheduleGameTeamDetail>(member(j, "team"@)) is Some {
            Some(
                ScheduleGameTeamView {
                    score: number_u8(member(j, "score"@)),
                    detail: record_of::<ScheduleGameTeamDetail>(member(j, "team"@))->0,
                },
            )
        } else {
            None
        }
    }

    fn decode(j: &JsonValue) -> (r: Option<ScheduleGameTeam>) {
        if !j.is_object() {
            return None;
        }
        let score = read_u8(j.member("score"));
        let detail = match read_record::<ScheduleGameTeamDetail>(j.member("team")) {
            Some(v) => v,
            None => {
                return None;
            },
        };
        Some(ScheduleGameTeam {
            score,
            detail,
        })
    }
}

impl Encode for ScheduleGameTeam {
    open spec fn encoded(m: ScheduleGameTeamView) -> Json {
        Json::Object(
            seq![
                ("score"@, match m.score { Some(n) => Json::Number(Some(n as u64)), None => Json::Null }),
                ("team"@, ScheduleGameTeamDetail::encoded(m.detail)),
            ],
        )
    }

    fn encode(&self) -> (r: JsonValue) {
        let mut members: Vec<(String, JsonValue)> = Vec::new();
        members.push((String::from_str("score"), encode_u8_option(self.score)));
        members.push((String::from_str("team"), self.detail.encode()));
        let r = JsonValue::Object(members);
        proof {
            reveal_with_fuel(<JsonValue as View>::view, 2);
        }
        assert(r@->Object_0 =~= Self::encoded(self@)->Object_0);
        r
    }

    proof fn lemma_round_trip(m: ScheduleGameTeamView) {
        reveal_strlit("score");
        reveal_strlit("team");
        assert("score"@.len() == 5);
        assert("team"@.len() == 4);
        let members = Self::encoded(m)->Object_0;
        assert forall|a: int, b: int| 0 <= a < b < 2 implies members[a].0 != members[b].0 by {
            assert(a == 0);
            assert(b == 1);
        }
        lemma_lookup_distinct(members);
        ScheduleGameTeamDetail::lemma_round_trip(m.detail);
    }
}

/// The team that plays one side of a scheduled game.
#[derive(Clone, Debug, PartialEq)]
pub struct ScheduleGameTeamDetail {
    pub id: u32,
    pub name: String,
    pub link: String,
}

/// The value of a [`ScheduleGameTeamDetail`].
pub struct ScheduleGameTeamDetailView {
    pub id: u32,
    pub name: Seq<char>,
    pub link: Seq<char>,
}

impl View for ScheduleGameTeamDetail {
    type V = ScheduleGameTeamDetailView;

    open spec fn view(&self) -> ScheduleGameTeamDetailView {
        ScheduleGameTeamDetailView {
            id: self.id,
            name: self.name@,
            link: self.link@,
        }
    }
}

impl Decode for ScheduleGameTeamDetail {
    open spec fn decoded(j: Json) -> Option<ScheduleGameTeamDetailView> {
        if j is Object && number_u32(member(j, "id"@)) is Some && text_or_empty(member(j, "name"@)) is Some && text_or_empty(member(j, "link"@)) is Some {
            Some(
                ScheduleGameTeamDetailView {
                    id: number_u32(member(j, "id"@))->0,
                    name: text_or_empty(member(j, "name"@))->0,
                    link: text_or_empty(member(j, "link"@))->0,
                },
            )
        } else {
            None
        }
    }

    fn decode(j: &JsonValue) -> (r: Option<ScheduleGameTeamDetail>) {
        if !j.is_object() {
            return None;
        }
        let id = match read_u32(j.member("id")) {
            Some(v) => v,
            None => {
                return None;
            },
        };
        let name = match text_or_default(j.member("name")) {
            Some(v) => v,
            None => {
                return None;
            },
        };
        let link = match text_or_default(j.member("link")) {
            Some(v) => v,
            None => {
                return None;
            },
        };
        Some(ScheduleGameTeamDetail {
            id,
            name,
            link,
        })
    }
}

impl Encode for ScheduleGameTeamDetail {
    open spec fn encoded(m: ScheduleGameTeamDetailView) -> Json {
        Json::Object(
            seq![
                ("id"@, Json::Number(Some(m.id as u64))),
                ("name"@, Json::Str(m.name)),
                ("link"@, Json::Str(m.link)),
            ],
        )
    }

    fn encode(&self) -> (r: JsonValue) {
        let mut members: Vec<(String, JsonValue)> = Vec::new();
        members.push((String::from_str("id"), JsonValue::Number(Some(self.id as u64))));
        members.push((String::from_str("name"), JsonValue::Str(self.name.clone())));
        members.push((String::from_str("link"), JsonValue::Str(self.link.clone())));
        let r = JsonValue::Object(members);
        proof {
            reveal_with_fuel(<JsonValue as View>::view, 2);
        }
        assert(r@->Object_0 =~= Self::encoded(self@)->Object_0);
        r
    }

    proof fn lemma_round_trip(m: ScheduleGameTeamDetailView) {
        reveal_strlit("id");
        reveal_strlit("name");
        reveal_strlit("link");
        assert("id"@.len() == 2);
        assert("name"@.len() == 4);
        assert("link"@.len() == 4);
        assert("link"@[0] == 'l');
        assert("name"@[0] == 'n');
        let members = Self::encoded(m)->Object_0;
        assert forall|a: int, b: int| 0 <= a < b < 3 implies members[a].0 != members[b].0 by {
            assert(a == 0 || a == 1);
            assert(b == 1 || b == 2);
        }
        lemma_lookup_distinct(members);
    }
}

/// An editorial section of a game.
#[derive(Clone, Debug, PartialEq)]
pub struct GameContentEditorialItem {
    pub title: String,
    pub items: Option<Vec<GameContentEditorialItemArticle>>,
}

/// The value of a [`GameContentEditorialItem`].
pub struct GameContentEditorialItemView {
    pub title: Seq<char>,
    pub items: Option<Seq<GameContentEditorialItemArticleView>>,
}

impl View for GameContentEditorialItem {
    type V = GameContentEditorialItemView;

    open spec fn view(&self) -> GameContentEditorialItemView {
        GameContentEditorialItemView {
            title: self.title@,
            items: opt_views(self.items),
        }
    }
}

impl Decode for GameContentEditorialItem {
    open spec fn decoded(j: Json) -> Option<GameContentEditorialItemView> {
        if j is Object && text_or_empty(member(j, "title"@)) is Some {
            Some(
                GameContentEditorialItemView {
                    title: text_or_empty(member(j, "title"@))->0,
                    items: list_of::<GameContentEditorialItemArticle>(member(j, "items"@)),
                },
            )
        } else {
            None
        }
    }

    fn decode(j: &JsonValue) -> (r: Option<GameContentEditorialItem>) {
        if !j.is_object() {
            return None;
        }
        let title = match text_or_default(j.member("title")) {
            Some(v) => v,
            None => {
                return None;
            },
        };
        let items = read_list::<GameContentEditorialItemArticle>(j.member("items"));
        Some(GameContentEditorialItem {
            title,
            items,
        })
    }
}

impl Encode for GameContentEditorialItem {
    open spec fn encoded(m: GameContentEditorialItemView) -> Json {
        Json::Object(
            seq![
                ("title"@, Json::Str(m.title)),
                ("items"@, match m.items { Some(s) => encoded_list::<GameContentEditorialItemArticle>(s), None => Json::Null }),
            ],
        )
    }

    fn encode(&self) -> (r: JsonValue) {
        let mut members: Vec<(String, JsonValue)> = Vec::new();
        members.push((String::from_str("title"), JsonValue::Str(self.title.clone())));
        members.push((String::from_str("items"), encode_list_option(&self.items)));
        let r = JsonValue::Object(members);
        proof {
            reveal_with_fuel(<JsonValue as View>::view, 2);
        }
        assert(r@->Object_0 =~= Self::encoded(self@)->Object_0);
        r
    }

    proof fn lemma_round_trip(m: GameContentEditorialItemView) {
        reveal_strlit("title");
        reveal_strlit("items");
        assert("title"@.len() == 5);
        assert("items"@.len() == 5);
        assert("items"@[0] == 'i');
        assert("title"@[0] == 't');
        let members = Self::encoded(m)->Object_0;
        assert forall|a: int, b: int| 0 <= a < b < 2 implies members[a].0 != members[b].0 by {
            assert(a == 0);
            assert(b == 1);
        }
        lemma_lookup_distinct(members);
        if let Some(s) = m.items {
            lemma_list_round_trip::<GameContentEditorialItemArticle>(s);
        }
    }
}

/// An article of an editorial section.
#[derive(Clone, Debug, PartialEq)]
pub struct GameContentEditorialItemArticle {
    pub kind: String,
    pub headline: String,
    pub subhead: String,
    pub seo_title: String,
    pub seo_description: String,
    pub media: Option<GameContentArticleMedia>,
}

/// The value of a [`GameContentEditorialItemArticle`].
pub struct GameContentEditorialItemArticleView {
    pub kind: Seq<char>,
    pub headline: Seq<char>,
    pub subhead: Seq<char>,
    pub seo_title: Seq<char>,
    pub seo_description: Seq<char>,
    pub media: Option<GameContentArticleMediaView>,
}

impl View for GameContentEditorialItemArticle {
    type V = GameContentEditorialItemArticleView;

    open spec fn view(&self) -> GameContentEditorialItemArticleView {
        GameContentEditorialItemArticleView {
            kind: self.kind@,
            headline: self.headline@,
            subhead: self.subhead@,
            seo_title: self.seo_title@,
            seo_description: self.seo_description@,
            media: opt_view(self.media),
        }
    }
}

impl Decode for GameContentEditorialItemArticle {
    open spec fn decoded(j: Json) -> Option<GameContentEditorialItemArticleView> {
        if j is Object && text_or_empty(member(j, "type"@)) is Some && text_or_empty(member(j, "headline"@)) is Some && text_or_empty(member(j, "subhead"@)) is Some && text_or_empty(member(j, "seoTitle"@)) is Some && text_or_empty(member(j, "seoDescription"@)) is Some {
            Some(
                GameContentEditorialItemArticleView {
                    kind: text_or_empty(member(j, "type"@))->0,
                    headline: text_or_empty(member(j, "headline"@))->0,
                    subhead: text_or_empty(member(j, "subhead"@))->0,
                    seo_title: text_or_empty(member(j, "seoTitle"@))->0,
                    seo_description: text_or_empty(member(j, "seoDescription"@))->0,
                    media: record_of::<GameContentArticleMedia>(member(j, "media"@)),
                },
            )
        } else {
            None
        }
    }

    fn decode(j: &JsonValue) -> (r: Option<GameContentEditorialItemArticle>) {
        if !j.is_object() {
            return None;
        }
        let kind = match text_or_default(j.member("type")) {
            Some(v) => v,
            None => {
                return None;
            },
        };
        let headline = match text_or_default(j.member("headline")) {
            Some(v) => v,
            None => {
                return None;
            },
        };
        let subhead = match text_or_default(j.member("subhead")) {
            Some(v) => v,
            None => {
                return None;
            },
        };
        let seo_title = match text_or_default(j.member("seoTitle")) {
            Some(v) => v,
            None => {
                return None;
            },
        };
        let seo_description = match text_or_default(j.member("seoDescription")) {
            Some(v) => v,
            None => {
                return None;
            },
        };
        let media = read_record::<GameContentArticleMedia>(j.member("media"));
        Some(GameContentEditorialItemArticle {
            kind,
            headline,
            subhead,
            seo_title,
            seo_description,
            media,
        })
    }
}

impl Encode for GameContentEditorialItemArticle {
    open spec fn encoded(m: GameContentEditorialItemArticleView) -> Json {
        Json::Object(
            seq![
                ("type"@, Json::Str(m.kind)),
                ("headline"@, Json::Str(m.headline)),
                ("subhead"@, Json::Str(m.subhead)),
                ("seoTitle"@, Json::Str(m.seo_title)),
                ("seoDescription"@, Json::Str(m.seo_description)),
                ("media"@, match m.media { Some(v) => GameContentArticleMedia::encoded(v), None => Json::Null }),
            ],
        )
    }

    fn encode(&self) -> (r: JsonValue) {
        let mut members: Vec<(String, JsonValue)> = Vec::new();
        members.push((String::from_str("type"), JsonValue::Str(self.kind.clone())));
        members.push((String::from_str("headline"), JsonValue::Str(self.headline.clone())));
        members.push((String::from_str("subhead"), JsonValue::Str(self.subhead.clone())));
        members.push((String::from_str("seoTitle"), JsonValue::Str(self.seo_title.clone())));
        members.push((String::from_str("seoDescription"), JsonValue::Str(self.seo_description.clone())));
        members.push((String::from_str("media"), encode_record_option(&self.media)));
        let r = JsonValue::Object(members);
        proof {
            reveal_with_fuel(<JsonValue as View>::view, 2);
        }
        assert(r@->Object_0 =~= Self::encoded(self@)->Object_0);
        r
    }

    proof fn lemma_round_trip(m: GameContentEditorialItemArticleView) {
        reveal_strlit("type");
        reveal_strlit("headline");
        reveal_strlit("subhead");
        reveal_strlit("seoTitle");
        reveal_strlit("seoDescription");
        reveal_strlit("media");
        assert("type"@.len() == 4);
        assert("headline"@.len() == 8);
        assert("subhead"@.len() == 7);
        assert("seoTitle"@.len() == 8);
        assert("seoDescription"@.len() == 14);
        assert("media"@.len() == 5);
        assert("seoTitle"@[0] == 's');
        assert("headline"@[0] == 'h');
        let members = Self::encoded(m)->Object_0;
        assert forall|a: int, b: int| 0 <= a < b < 6 implies members[a].0 != members[b].0 by {
            assert(a == 0 || a == 1 || a == 2 || a == 3 || a == 4);
            assert(b == 1 || b == 2 || b == 3 || b == 4 || b == 5);
        }
        lemma_lookup_distinct(members);
        if let Some(v) = m.media {
            GameContentArticleMedia::lemma_round_trip(v);
        }
    }
}

/// The picture of an article.
#[derive(Clone, Debug, PartialEq)]
pub struct GameContentArticleMedia {
    pub kind: String,
    pub image: GameContentArticleMediaImage,
}

/// The value of a [`GameContentArticleMedia`].
pub struct GameContentArticleMediaView {
    pub kind: Seq<char>,
    pub image: GameContentArticleMediaImageView,
}

impl View for GameContentArticleMedia {
    type V = GameContentArticleMediaView;

    open spec fn view(&self) -> GameContentArticleMediaView {
        GameContentArticleMediaView {
            kind: self.kind@,
            image: self.image@,
        }
    }
}

impl Decode for GameContentArticleMedia {
    open spec fn decoded(j: Json) -> Option<GameContentArticleMediaView> {
        if j is Object && text_or_empty(member(j, "type"@)) is Some && record_of::<GameContentArticleMediaImage>(member(j, "image"@)) is Some {
            Some(
                GameContentArticleMediaView {
                    kind: text_or_empty(member(j, "type"@))->0,
                    image: record_of::<GameContentArticleMediaImage>(member(j, "image"@))->0,
                },
            )
        } else {
            None
        }
    }

    fn decode(j: &JsonValue) -> (r: Option<GameContentArticleMedia>) {
        if !j.is_object() {
            return None;
        }
        let kind = match text_or_default(j.member("type")) {
            Some(v) => v,
            None => {
                return None;
            },
        };
        let image = match read_record::<GameContentArticleMediaImage>(j.member("image")) {
            Some(v) => v,
            None => {
                return None;
            },
        };
        Some(GameContentArticleMedia {
            kind,
            image,
        })
    }
}

impl Encode for GameContentArticleMedia {
    open spec fn encoded(m: GameContentArticleMediaView) -> Json {
        Json::Object(
            seq![
                ("type"@, Json::Str(m.kind)),
                ("image"@, GameContentArticleMediaImage::encoded(m.image)),
            ],
        )
    }

    fn encode(&self) -> (r: JsonValue) {
        let mut members: Vec<(String, JsonValue)> = Vec::new();
        members.push((String::from_str("type"), JsonValue::Str(self.kind.clone())));
        members.push((String::from_str("image"), self.image.encode()));
        let r = JsonValue::Object(members);
        proof {
            reveal_with_fuel(<JsonValue as View>::view, 2);
        }
        assert(r@->Object_0 =~= Self::encoded(self@)->Object_0);
        r
    }

    proof fn lemma_round_trip(m: GameContentArticleMediaView) {
        reveal_strlit("type");
        reveal_strlit("image");
        assert("type"@.len() == 4);
        assert("image"@.len() == 5);
        let members = Self::encoded(m)->Object_0;
        assert forall|a: int, b: int| 0 <= a < b < 2 implies members[a].0 != members[b].0 by {
            assert(a == 0);
            assert(b == 1);
        }
        lemma_lookup_distinct(members);
        GameContentArticleMediaImage::lemma_round_trip(m.image);
    }
}

/// The cuts of a picture.
#[derive(Clone, Debug, PartialEq)]
pub struct GameContentArticleMediaImage {
    pub cuts: GameContentArticleMediaImageCut,
}

/// The value of a [`GameContentArticleMediaImage`].
pub struct GameContentArticleMediaImageView {
    pub cuts: GameContentArticleMediaImageCutView,
}

impl View for GameContentArticleMediaImage {
    type V = GameContentArticleMediaImageView;

    open spec fn view(&self) -> GameContentArticleMediaImageView {
        GameContentArticleMediaImageView {
            cuts: self.cuts@,
        }
    }
}

impl Decode for GameContentArticleMediaImage {
    open spec fn decoded(j: Json) -> Option<GameContentArticleMediaImageView> {
        if j is Object && record_of::<GameContentArticleMediaImageCut>(member(j, "cuts"@)) is Some {
            Some(
                GameContentArticleMediaImageView {
                    cuts: record_of::<GameContentArticleMediaImageCut>(member(j, "cuts"@))->0,
                },
            )
        } else {
            None
        }
    }

    fn decode(j: &JsonValue) -> (r: Option<GameContentArticleMediaImage>) {
        if !j.is_object() {
            return None;
        }
        let cuts = match read_record::<GameContentArticleMediaImageCut>(j.member("cuts")) {
            Some(v) => v,
            None => {
                return None;
            },
        };
        Some(GameContentArticleMediaImage {
            cuts,
        })
    }
}

impl Encode for GameContentArticleMediaImage {
    open spec fn encoded(m: GameContentArticleMediaImageView) -> Json {
        Json::Object(
            seq![
                ("cuts"@, GameContentArticleMediaImageCut::encoded(m.cuts)),
            ],
        )
    }

    fn encode(&self) -> (r: JsonValue) {
        let mut members: Vec<(String, JsonValue)> = Vec::new();
        members.push((String::from_str("cuts"), self.cuts.encode()));
        let r = JsonValue::Object(members);
        proof {
            reveal_with_fuel(<JsonValue as View>::view, 2);
        }
        assert(r@->Object_0 =~= Self::encoded(self@)->Object_0);
        r
    }

    proof fn lemma_round_trip(m: GameContentArticleMediaImageView) {
        reveal_strlit("cuts");
        assert("cuts"@.len() == 4);
        let members = Self::encoded(m)->Object_0;
        lemma_lookup_distinct(members);
        GameContentArticleMediaImageCut::lemma_round_trip(m.cuts);
    }
}

/// A picture in each of its sizes.
#[derive(Clone, Debug, PartialEq)]
pub struct GameContentArticleMediaImageCut {
    pub cut_2208_1242: GameContentArticleMediaImageCutDetail,
    pub cut_2048_1152: GameContentArticleMediaImageCutDetail,
    pub cut_1704_960: GameContentArticleMediaImageCutDetail,
    pub cut_1536_864: GameContentArticleMediaImageCutDetail,
    pub cut_1284_722: GameContentArticleMediaImageCutDetail,
    pub cut_1136_640: GameContentArticleMediaImageCutDetail,
    pub cut_1024_576: GameContentArticleMediaImageCutDetail,
    pub cut_960_540: GameContentArticleMediaImageCutDetail,
    pub cut_768_432: GameContentArticleMediaImageCutDetail,
    pub cut_640_360: GameContentArticleMediaImageCutDetail,
    pub cut_568_320: GameContentArticleMediaImageCutDetail,
    pub cut_372_210: GameContentArticleMediaImageCutDetail,
    pub cut_320_180: GameContentArticleMediaImageCutDetail,
    pub cut_248_140: GameContentArticleMediaImageCutDetail,
    pub cut_124_70: GameContentArticleMediaImageCutDetail,
}

/// The value of a [`GameContentArticleMediaImageCut`].
pub struct GameContentArticleMediaImageCutView {
    pub cut_2208_1242: GameContentArticleMediaImageCutDetailView,
    pub cut_2048_1152: GameContentArticleMediaImageCutDetailView,
    pub cut_1704_960: GameContentArticleMediaImageCutDetailView,
    pub cut_1536_864: GameContentArticleMediaImageCutDetailView,
    pub cut_1284_722: GameContentArticleMediaImageCutDetailView,
    pub cut_1136_640: GameContentArticleMediaImageCutDetailView,
    pub cut_1024_576: GameContentArticleMediaImageCutDetailView,
    pub cut_960_540: GameContentArticleMediaImageCutDetailView,
    pub cut_768_432: GameContentArticleMediaImageCutDetailView,
    pub cut_640_360: GameContentArticleMediaImageCutDetailView,
    pub cut_568_320: GameContentArticleMediaImageCutDetailView,
    pub cut_372_210: GameContentArticleMediaImageCutDetailView,
    pub cut_320_180: GameContentArticleMediaImageCutDetailView,
    pub cut_248_140: GameContentArticleMediaImageCutDetailView,
    pub cut_124_70: GameContentArticleMediaImageCutDetailView,
}

impl View for GameContentArticleMediaImageCut {
    type V = GameContentArticleMediaImageCutView;

    open spec fn view(&self) -> GameContentArticleMediaImageCutView {
        GameContentArticleMediaImageCutView {
            cut_2208_1242: self.cut_2208_1242@,
            cut_2048_1152: self.cut_2048_1152@,
            cut_1704_960: self.cut_1704_960@,
            cut_1536_864: self.cut_1536_864@,
            cut_1284_722: self.cut_1284_722@,
            cut_1136_640: self.cut_1136_640@,
            cut_1024_576: self.cut_1024_576@,
            cut_960_540: self.cut_960_540@,
            cut_768_432: self.cut_768_432@,
            cut_640_360: self.cut_640_360@,
            cut_568_320: self.cut_568_320@,
            cut_372_210: self.cut_372_210@,
            cut_320_180: self.cut_320_180@,
            cut_248_140: self.cut_248_140@,
            cut_124_70: self.cut_124_70@,
        }
    }
}

impl Decode for GameContentArticleMediaImageCut {
    open spec fn decoded(j: Json) -> Option<GameContentArticleMediaImageCutView> {
        if j is Object && record_of::<GameContentArticleMediaImageCutDetail>(member(j, "2208x1242"@)) is Some && record_of::<GameContentArticleMediaImageCutDetail>(member(j, "2048x1152"@)) is Some && record_of::<GameContentArticleMediaImageCutDetail>(member(j, "1704x960"@)) is Some && record_of::<GameContentArticleMediaImageCutDetail>(member(j, "1536x864"@)) is Some && record_of::<GameContentArticleMediaImageCutDetail>(member(j, "1284x722"@)) is Some && record_of::<GameContentArticleMediaImageCutDetail>(member(j, "1136x640"@)) is Some && record_of::<GameContentArticleMediaImageCutDetail>(member(j, "1024x576"@)) is Some && record_of::<GameContentArticleMediaImageCutDetail>(member(j, "960x540"@)) is Some && record_of::<GameContentArticleMediaImageCutDetail>(member(j, "768x432"@)) is Some && record_of::<GameContentArticleMediaImageCutDetail>(member(j, "640x360"@)) is Some && record_of::<GameContentArticleMediaImageCutDetail>(member(j, "568x320"@)) is Some && record_of::<GameContentArticleMediaImageCutDetail>(member(j, "372x210"@)) is Some && record_of::<GameContentArticleMediaImageCutDetail>(member(j, "320x180"@)) is Some && record_of::<GameContentArticleMediaImageCutDetail>(member(j, "248x140"@)) is Some && record_of::<GameContentArticleMediaImageCutDetail>(member(j, "124x70"@)) is Some {
            Some(
                GameContentArticleMediaImageCutView {
                    cut_2208_1242: record_of::<GameContentArticleMediaImageCutDetail>(member(j, "2208x1242"@))->0,
                    cut_2048_1152: record_of::<GameContentArticleMediaImageCutDetail>(member(j, "2048x1152"@))->0,
                    cut_1704_960: record_of::<GameContentArticleMediaImageCutDetail>(member(j, "1704x960"@))->0,
                    cut_1536_864: record_of::<GameContentArticleMediaImageCutDetail>(member(j, "1536x864"@))->0,
                    cut_1284_722: record_of::<GameContentArticleMediaImageCutDetail>(member(j, "1284x722"@))->0,
                    cut_1136_640: record_of::<GameContentArticleMediaImageCutDetail>(member(j, "1136x640"@))->0,
                    cut_1024_576: record_of::<GameContentArticleMediaImageCutDetail>(member(j, "1024x576"@))->0,
                    cut_960_540: record_of::<GameContentArticleMediaImageCutDetail>(member(j, "960x540"@))->0,
                    cut_768_432: record_of::<GameContentArticleMediaImageCutDetail>(member(j, "768x432"@))->0,
                    cut_640_360: record_of::<GameContentArticleMediaImageCutDetail>(member(j, "640x360"@))->0,
                    cut_568_320: record_of::<GameContentArticleMediaImageCutDetail>(member(j, "568x320"@))->0,
                    cut_372_210: record_of::<GameContentArticleMediaImageCutDetail>(member(j, "372x210"@))->0,
                    cut_320_180: record_of::<GameContentArticleMediaImageCutDetail>(member(j, "320x180"@))->0,
                    cut_248_140: record_of::<GameContentArticleMediaImageCutDetail>(member(j, "248x140"@))->0,
                    cut_124_70: record_of::<GameContentArticleMediaImageCutDetail>(member(j, "124x70"@))->0,
                },
            )
        } else {
            None
        }
    }

    fn decode(j: &JsonValue) -> (r: Option<GameContentArticleMediaImageCut>) {
        if !j.is_object() {
            return None;
        }
        let cut_2208_1242 = match read_record::<GameContentArticleMediaImageCutDetail>(j.member("2208x1242")) {
            Some(v) => v,
            None => {
                return None;
            },
        };
        let cut_2048_1152 = match read_record::<GameContentArticleMediaImageCutDetail>(j.member("2048x1152")) {
            Some(v) => v,
            None => {
                return None;
            },
        };
        let cut_1704_960 = match read_record::<GameContentArticleMediaImageCutDetail>(j.member("1704x960")) {
            Some(v) => v,
            None => {
                return None;
            },
        };
        let cut_1536_864 = match read_record::<GameContentArticleMediaImageCutDetail>(j.member("1536x864")) {
            Some(v) => v,
            None => {
                return None;
            },
        };
        let cut_1284_722 = match read_record::<GameContentArticleMediaImageCutDetail>(j.member("1284x722")) {
            Some(v) => v,
            None => {
                return None;
            },
        };
        let cut_1136_640 = match read_record::<GameContentArticleMediaImageCutDetail>(j.member("1136x640")) {
            Some(v) => v,
            None => {
                return None;
            },
        };
        let cut_1024_576 = match read_record::<GameContentArticleMediaImageCutDetail>(j.member("1024x576")) {
            Some(v) => v,
            None => {
                return None;
            },
        };
        let cut_960_540 = match read_record::<GameContentArticleMediaImageCutDetail>(j.member("960x540")) {
            Some(v) => v,
            None => {
                return None;
            },
        };
        let cut_768_432 = match read_record::<GameContentArticleMediaImageCutDetail>(j.member("768x432")) {
            Some(v) => v,
            None => {
                return None;
            },
        };
        let cut_640_360 = match read_record::<GameContentArticleMediaImageCutDetail>(j.member("640x360")) {
            Some(v) => v,
            None => {
                return None;
            },
        };
        let cut_568_320 = match read_record::<GameContentArticleMediaImageCutDetail>(j.member("568x320")) {
            Some(v) => v,
            None => {
                return None;
            },
        };
        let cut_372_210 = match read_record::<GameContentArticleMediaImageCutDetail>(j.member("372x210")) {
            Some(v) => v,
            None => {
                return None;
            },
        };
        let cut_320_180 = match read_record::<GameContentArticleMediaImageCutDetail>(j.member("320x180")) {
            Some(v) => v,
            None => {
                return None;
            },
        };
        let cut_248_140 = match read_record::<GameContentArticleMediaImageCutDetail>(j.member("248x140")) {
            Some(v) => v,
            None => {
                return None;
            },
        };
        let cut_124_70 = match read_record::<GameContentArticleMediaImageCutDetail>(j.member("124x70")) {
            Some(v) => v,
            None => {
                return None;
            },
        };
        Some(GameContentArticleMediaImageCut {
            cut_2208_1242,
            cut_2048_1152,
            cut_1704_960,
            cut_1536_864,
            cut_1284_722,
            cut_1136_640,
            cut_1024_576,
            cut_960_540,
            cut_768_432,
            cut_640_360,
            cut_568_320,
            cut_372_210,
            cut_320_180,
            cut_248_140,
            cut_124_70,
        })
    }
}

impl Encode for GameContentArticleMediaImageCut {
    open spec fn encoded(m: GameContentArticleMediaImageCutView) -> Json {
        Json::Object(
            seq![
                ("2208x1242"@, GameContentArticleMediaImageCutDetail::encoded(m.cut_2208_1242)),
                ("2048x1152"@, GameContentArticleMediaImageCutDetail::encoded(m.cut_2048_1152)),
                ("1704x960"@, GameContentArticleMediaImageCutDetail::encoded(m.cut_1704_960)),
                ("1536x864"@, GameContentArticleMediaImageCutDetail::encoded(m.cut_1536_864)),
                ("1284x722"@, GameContentArticleMediaImageCutDetail::encoded(m.cut_1284_722)),
                ("1136x640"@, GameContentArticleMediaImageCutDetail::encoded(m.cut_1136_640)),
                ("1024x576"@, GameContentArticleMediaImageCutDetail::encoded(m.cut_1024_576)),
                ("960x540"@, GameContentArticleMediaImageCutDetail::encoded(m.cut_960_540)),
                ("768x432"@, GameContentArticleMediaImageCutDetail::encoded(m.cut_768_432)),
                ("640x360"@, GameContentArticleMediaImageCutDetail::encoded(m.cut_640_360)),
                ("568x320"@, GameContentArticleMediaImageCutDetail::encoded(m.cut_568_320)),
                ("372x210"@, GameContentArticleMediaImageCutDetail::encoded(m.cut_372_210)),
                ("320x180"@, GameContentArticleMediaImageCutDetail::encoded(m.cut_320_180)),
                ("248x140"@, GameContentArticleMediaImageCutDetail::encoded(m.cut_248_140)),
                ("124x70"@, GameContentArticleMediaImageCutDetail::encoded(m.cut_124_70)),
            ],
        )
    }

    fn encode(&self) -> (r: JsonValue) {
        let mut members: Vec<(String, JsonValue)> = Vec::new();
        members.push((String::from_str("2208x1242"), self.cut_2208_1242.encode()));
        members.push((String::from_str("2048x1152"), self.cut_2048_1152.encode()));
        members.push((String::from_str("1704x960"), self.cut_1704_960.encode()));
        members.push((String::from_str("1536x864"), self.cut_1536_864.encode()));
        members.push((String::from_str("1284x722"), self.cut_1284_722.encode()));
        members.push((String::from_str("1136x640"), self.cut_1136_640.encode()));
        members.push((String::from_str("1024x576"), self.cut_1024_576.encode()));
        members.push((String::from_str("960x540"), self.cut_960_540.encode()));
        members.push((String::from_str("768x432"), self.cut_768_432.encode()));
        members.push((String::from_str("640x360"), self.cut_640_360.encode()));
        members.push((String::from_str("568x320"), self.cut_568_320.encode()));
        members.push((String::from_str("372x210"), self.cut_372_210.encode()));
        members.push((String::from_str("320x180"), self.cut_320_180.encode()));
        members.push((String::from_str("248x140"), self.cut_248_140.encode()));
        members.push((String::from_str("124x70"), self.cut_124_70.encode()));
        let r = JsonValue::Object(members);
        proof {
            reveal_with_fuel(<JsonValue as View>::view, 2);
        }
        assert(r@->Object_0 =~= Self::encoded(self@)->Object_0);
        r
    }

    proof fn lemma_round_trip(m: GameContentArticleMediaImageCutView) {
        reveal_strlit("2208x1242");
        reveal_strlit("2048x1152");
        reveal_strlit("1704x960");
        reveal_strlit("1536x864");
        reveal_strlit("1284x722");
        reveal_strlit("1136x640");
        reveal_strlit("1024x576");
        reveal_strlit("960x540");
        reveal_strlit("768x432");
        reveal_strlit("640x360");
        reveal_strlit("568x320");
        reveal_strlit("372x210");
        reveal_strlit("320x180");
        reveal_strlit("248x140");
        reveal_strlit("124x70");
        assert("2208x1242"@.len() == 9);
        assert("2048x1152"@.len() == 9);
        assert("1704x960"@.len() == 8);
        assert("1536x864"@.len() == 8);
        assert("1284x722"@.len() == 8);
        assert("1136x640"@.len() == 8);
        assert("1024x576"@.len() == 8);
        assert("960x540"@.len() == 7);
        assert("768x432"@.len() == 7);
        assert("640x360"@.len() == 7);
        assert("568x320"@.len() == 7);
        assert("372x210"@.len() == 7);
        assert("320x180"@.len() == 7);
        assert("248x140"@.len() == 7);
        assert("124x70"@.len() == 6);
        assert("2048x1152"@[1] == '0');
        assert("2208x1242"@[1] == '2');
        assert("1536x864"@[1] == '5');
        assert("1704x960"@[1] == '7');
        assert("1284x722"@[1] == '2');
        assert("1136x640"@[1] == '1');
        assert("1024x576"@[1] == '0');
        assert("768x432"@[0] == '7');
        assert("960x540"@[0] == '9');
        assert("640x360"@[0] == '6');
        assert("568x320"@[0] == '5');
        assert("372x210"@[0] == '3');
        assert("320x180"@[0] == '3');
        assert("320x180"@[1] == '2');
        assert("372x210"@[1] == '7');
        assert("248x140"@[0] == '2');
        let members = Self::encoded(m)->Object_0;
        assert forall|a: int, b: int| 0 <= a < b < 15 implies members[a].0 != members[b].0 by {
            assert(a == 0 || a == 1 || a == 2 || a == 3 || a == 4 || a == 5 || a == 6 || a == 7 || a == 8 || a == 9 || a == 10 || a == 11 || a == 12 || a == 13);
            assert(b == 1 || b == 2 || b == 3 || b == 4 || b == 5 || b == 6 || b == 7 || b == 8 || b == 9 || b == 10 || b == 11 || b == 12 || b == 13 || b == 14);
        }
        lemma_lookup_distinct(members);
        GameContentArticleMediaImageCutDetail::lemma_round_trip(m.cut_2208_1242);
        GameContentArticleMediaImageCutDetail::lemma_round_trip(m.cut_2048_1152);
        GameContentArticleMediaImageCutDetail::lemma_round_trip(m.cut_1704_960);
        GameContentArticleMediaImageCutDetail::lemma_round_trip(m.cut_1536_864);
        GameContentArticleMediaImageCutDetail::lemma_round_trip(m.cut_1284_722);
        GameContentArticleMediaImageCutDetail::lemma_round_trip(m.cut_1136_640);
        GameContentArticleMediaImageCutDetail::lemma_round_trip(m.cut_1024_576);
        GameContentArticleMediaImageCutDetail::lemma_round_trip(m.cut_960_540);
        GameContentArticleMediaImageCutDetail::lemma_round_trip(m.cut_768_432);
        GameContentArticleMediaImageCutDetail::lemma_round_trip(m.cut_640_360);
        GameContentArticleMediaImageCutDetail::lemma_round_trip(m.cut_568_320);
        GameContentArticleMediaImageCutDetail::lemma_round_trip(m.cut_372_210);
        GameContentArticleMediaImageCutDetail::lemma_round_trip(m.cut_320_180);
        GameContentArticleMediaImageCutDetail::lemma_round_trip(m.cut_248_140);
        GameContentArticleMediaImageCutDetail::lemma_round_trip(m.cut_124_70);
    }
}

/// A picture in one size.
#[derive(Clone, Debug, PartialEq)]
pub struct GameContentArticleMediaImageCutDetail {
    pub aspect_ratio: String,
    pub width: u32,
    pub height: u32,
    pub src: String,
}

/// The value of a [`GameContentArticleMediaImageCutDetail`].
pub struct GameContentArticleMediaImageCutDetailView {
    pub aspect_ratio: Seq<char>,
    pub width: u32,
    pub height: u32,
    pub src: Seq<char>,
}

impl View for GameContentArticleMediaImageCutDetail {
    type V = GameContentArticleMediaImageCutDetailView;

    open spec fn view(&self) -> GameContentArticleMediaImageCutDetailView {
        GameContentArticleMediaImageCutDetailView {
            aspect_ratio: self.aspect_ratio@,
            width: self.width,
            height: self.height,
            src: self.src@,
        }
    }
}

impl Decode for GameContentArticleMediaImageCutDetail {
    open spec fn decoded(j: Json) -> Option<GameContentArticleMediaImageCutDetailView> {
        if j is Object && text_or_empty(member(j, "aspectRatio"@)) is Some && u32_or_zero(member(j, "width"@)) is Some && u32_or_zero(member(j, "height"@)) is Some && text_or_empty(member(j, "src"@)) is Some {
            Some(
                GameContentArticleMediaImageCutDetailView {
                    aspect_ratio: text_or_empty(member(j, "aspectRatio"@))->0,
                    width: u32_or_zero(member(j, "width"@))->0,
                    height: u32_or_zero(member(j, "height"@))->0,
                    src: text_or_empty(member(j, "src"@))->0,
                },
            )
        } else {
            None
        }
    }

    fn decode(j: &JsonValue) -> (r: Option<GameContentArticleMediaImageCutDetail>) {
        if !j.is_object() {
            return None;
        }
        let aspect_ratio = match text_or_default(j.member("aspectRatio")) {
            Some(v) => v,
            None => {
                return None;
            },
        };
        let width = match u32_or_default(j.member("width")) {
            Some(v) => v,
            None => {
                return None;
            },
        };
        let height = match u32_or_default(j.member("height")) {
            Some(v) => v,
            None => {
                return None;
            },
        };
        let src = match text_or_default(j.member("src")) {
            Some(v) => v,
            None => {
                return None;
            },
        };
        Some(GameContentArticleMediaImageCutDetail {
            aspect_ratio,
            width,
            height,
            src,
        })
    }
}

impl Encode for GameContentArticleMediaImageCutDetail {
    open spec fn encoded(m: GameContentArticleMediaImageCutDetailView) -> Json {
        Json::Object(
            seq![
                ("aspectRatio"@, Json::Str(m.aspect_ratio)),
                ("width"@, Json::Number(Some(m.width as u64))),
                ("height"@, Json::Number(Some(m.height as u64))),
                ("src"@, Json::Str(m.src)),
            ],
        )
    }

    fn encode(&self) -> (r: JsonValue) {
        let mut members: Vec<(String, JsonValue)> = Vec::new();
        members.push((String::from_str("aspectRatio"), JsonValue::Str(self.aspect_ratio.clone())));
        members.push((String::from_str("width"), JsonValue::Number(Some(self.width as u64))));
        members.push((String::from_str("height"), JsonValue::Number(Some(self.height as u64))));
        members.push((String::from_str("src"), JsonValue::Str(self.src.clone())));
        let r = JsonValue::Object(members);
        proof {
            reveal_with_fuel(<JsonValue as View>::view, 2);
        }
        assert(r@->Object_0 =~= Self::encoded(self@)->Object_0);
        r
    }

    proof fn lemma_round_trip(m: GameContentArticleMediaImageCutDetailView) {
        reveal_strlit("aspectRatio");
        reveal_strlit("width");
        reveal_strlit("height");
        reveal_strlit("src");
        assert("aspectRatio"@.len() == 11);
        assert("width"@.len() == 5);
        assert("height"@.len() == 6);
        assert("src"@.len() == 3);
        let members = Self::encoded(m)->Object_0;
        assert forall|a: int, b: int| 0 <= a < b < 4 implies members[a].0 != members[b].0 by {
            assert(a == 0 || a == 1 || a == 2);
            assert(b == 1 || b == 2 || b == 3);
        }
        lemma_lookup_distinct(members);
    }
}

impl ScheduleResponse {
    /// The schedule of the last date of the response; a response without dates is `NoGames`,
    /// never an empty schedule.
    pub fn into_schedule(self) -> (r: Result<Schedule, ClientError>)
        ensures
            self@.dates.len() == 0 <==> r == Err::<Schedule, ClientError>(ClientError::NoGames),
            self@.dates.len() > 0 ==> r is Ok && r->Ok_0@ == self@.dates.last(),
    {
        let mut dates = self.dates;
        match dates.pop() {
            Some(schedule) => Ok(schedule),
            None => Err(ClientError::NoGames),
        }
    }
}

} // verus!
