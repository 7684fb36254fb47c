use vstd::prelude::*;
use crate::decode::{
    bool_or_default, bool_or_false, list_of, list_or_default, list_or_empty, number_u32, opt_view,
    opt_views, read_list, read_record, read_text, read_u32, record_of, text_of, text_or_default,
    text_or_empty, text_views, u32_or_default, u32_or_zero, u8_or_default, u8_or_zero, views,
    Decode,
};
use crate::encode::{
    encode_list, encode_list_option, encode_record_option, encode_text_option, encoded_list,
    lemma_list_round_trip, Encode,
};
use crate::json::{lemma_lookup_distinct, member, Json, JsonValue};
pub use crate::model::{
    GameContentArticleMedia, GameContentArticleMediaImage, GameContentArticleMediaImageCut,
    GameContentArticleMediaImageCutDetail, GameContentArticleMediaImageCutDetailView,
    GameContentArticleMediaImageCutView, GameContentArticleMediaImageView,
    GameContentArticleMediaView, GameContentEditorialItem, GameContentEditorialItemArticle,
    GameContentEditorialItemArticleView, GameContentEditorialItemView, Schedule, ScheduleGame,
    ScheduleGameTeam, ScheduleGameTeamDetail, ScheduleGameTeamDetailView, ScheduleGameTeamView,
    ScheduleGameTeams, ScheduleGameTeamsView, ScheduleGameView, ScheduleResponse,
    ScheduleResponseView, ScheduleView,
};

verus! {

/// The teams that a team query returns.
#[derive(Clone, Debug, PartialEq)]
pub struct TeamsResponse {
    pub teams: Vec<Team>,
}

/// The value of a [`TeamsResponse`].
pub struct TeamsResponseView {
    pub teams: Seq<TeamView>,
}

impl View for TeamsResponse {
    type V = TeamsResponseView;

    open spec fn view(&self) -> TeamsResponseView {
        TeamsResponseView {
            teams: views(self.teams@),
        }
    }
}

impl Decode for TeamsResponse {
    open spec fn decoded(j: Json) -> Option<TeamsResponseView> {
        if j is Object && list_of::<Team>(member(j, "teams"@)) is Some {
            Some(
                TeamsResponseView {
                    teams: list_of::<Team>(member(j, "teams"@))->0,
                },
            )
        } else {
            None
        }
    }

    fn decode(j: &JsonValue) -> (r: Option<TeamsResponse>) {
        if !j.is_object() {
            return None;
        }
        let teams = match read_list::<Team>(j.member("teams")) {
            Some(v) => v,
            None => {
                return None;
            },
        };
        Some(TeamsResponse {
            teams,
        })
    }
}

impl Encode for TeamsResponse {
    open spec fn encoded(m: TeamsResponseView) -> Json {
        Json::Object(
            seq![
                ("teams"@, encoded_list::<Team>(m.teams)),
            ],
        )
    }

    fn encode(&self) -> (r: JsonValue) {
        let mut members: Vec<(String, JsonValue)> = Vec::new();
        members.push((String::from_str("teams"), encode_list(&self.teams)));
        let r = JsonValue::Object(members);
        proof {
            reveal_with_fuel(<JsonValue as View>::view, 2);
        }
        assert(r@->Object_0 =~= Self::encoded(self@)->Object_0);
        r
    }

    proof fn lemma_round_trip(m: TeamsResponseView) {
        reveal_strlit("teams");
        assert("teams"@.len() == 5);
        let members = Self::encoded(m)->Object_0;
        lemma_lookup_distinct(members);
        lemma_list_round_trip::<Team>(m.teams);
    }
}

/// A team of the baseball league.
#[derive(Clone, Debug, PartialEq)]
pub struct Team {
    pub id: u32,
    pub name: String,
    pub link: String,
    pub abbreviation: Option<String>,
    pub team_name: String,
    pub location_name: Option<String>,
    pub first_year_of_play: Option<String>,
    pub short_name: Option<String>,
    pub active: bool,
}

/// The value of a [`Team`].
pub struct TeamView {
    pub id: u32,
    pub name: Seq<char>,
    pub link: Seq<char>,
    pub abbreviation: Option<Seq<char>>,
    pub team_name: Seq<char>,
    pub location_name: Option<Seq<char>>,
    pub first_year_of_play: Option<Seq<char>>,
    pub short_name: Option<Seq<char>>,
    pub active: bool,
}

impl View for Team {
    type V = TeamView;

    open spec fn view(&self) -> TeamView {
        TeamView {
            id: self.id,
            name: self.name@,
            link: self.link@,
            abbreviation: text_views(self.abbreviation),
            team_name: self.team_name@,
            location_name: text_views(self.location_name),
            first_year_of_play: text_views(self.first_year_of_play),
            short_name: text_views(self.short_name),
            active: self.active,
        }
    }
}

impl Decode for Team {
    open spec fn decoded(j: Json) -> Option<TeamView> {
        if j is Object && number_u32(member(j, "id"@)) is Some && text_or_empty(member(j, "name"@)) is Some && text_or_empty(member(j, "link"@)) is Some && text_or_empty(member(j, "teamName"@)) is Some && bool_or_false(member(j, "active"@)) is Some {
            Some(
                TeamView {
                    id: number_u32(member(j, "id"@))->0,
                    name: text_or_empty(member(j, "name"@))->0,
                    link: text_or_empty(member(j, "link"@))->0,
                    abbreviation: text_of(member(j, "abbreviation"@)),
                    team_name: text_or_empty(member(j, "teamName"@))->0,
                    location_name: text_of(member(j, "locationName"@)),
                    first_year_of_play: text_of(member(j, "firstYearOfPlay"@)),
                    short_name: text_of(member(j, "shortName"@)),
                    active: bool_or_false(member(j, "active"@))->0,
                },
            )
        } else {
            None
        }
    }

    fn decode(j: &JsonValue) -> (r: Option<Team>) {
        if !j.is_object() {
            return None;
        }
        let id = match read_u32(j.member("id")) {
            Some(v) => v,
            None => {
                return None;
            },
        };
        let name = match text_or_default(j.member("name")) {
            Some(v) => v,
            None => {
                return None;
            },
        };
        let link = match text_or_default(j.member("link")) {
            Some(v) => v,
            None => {
                return None;
            },
        };
        let abbreviation = read_text(j.member("abbreviation"));
        let team_name = match text_or_default(j.member("teamName")) {
            Some(v) => v,
            None => {
                return None;
            },
        };
        let location_name = read_text(j.member("locationName"));
        let first_year_of_play = read_text(j.member("firstYearOfPlay"));
        let short_name = read_text(j.member("shortName"));
        let active = match bool_or_default(j.member("active")) {
            Some(v) => v,
            None => {
                return None;
            },
        };
        Some(Team {
            id,
            name,
            link,
            abbreviation,
            team_name,
            location_name,
            first_year_of_play,
            short_name,
            active,
        })
    }
}

impl Encode for Team {
    open spec fn encoded(m: TeamView) -> Json {
        Json::Object(
            seq![
                ("id"@, Json::Number(Some(m.id as u64))),
                ("name"@, Json::Str(m.name)),
                ("link"@, Json::Str(m.link)),
                ("abbreviation"@, match m.abbreviation { Some(s) => Json::Str(s), None => Json::Null }),
                ("teamName"@, Json::Str(m.team_name)),
                ("locationName"@, match m.location_name { Some(s) => Json::Str(s), None => Json::Null }),
                ("firstYearOfPlay"@, match m.first_year_of_play { Some(s) => Json::Str(s), None => Json::Null }),
                ("shortName"@, match m.short_name { Some(s) => Json::Str(s), None => Json::Null }),
                ("active"@, Json::Bool(m.active)),
            ],
        )
    }

    fn encode(&self) -> (r: JsonValue) {
        let mut members: Vec<(String, JsonValue)> = Vec::new();
        members.push((String::from_str("id"), JsonValue::Number(Some(self.id as u64))));
        members.push((String::from_str("name"), JsonValue::Str(self.name.clone())));
        members.push((String::from_str("link"), JsonValue::Str(self.link.clone())));
        members.push((String::from_str("abbreviation"), encode_text_option(&self.abbreviation)));
        members.push((String::from_str("teamName"), JsonValue::Str(self.team_name.clone())));
        members.push((String::from_str("locationName"), encode_text_option(&self.location_name)));
        members.push((String::from_str("firstYearOfPlay"), encode_text_option(&self.first_year_of_play)));
        members.push((String::from_str("shortName"), encode_text_option(&self.short_name)));
        members.push((String::from_str("active"), JsonValue::Bool(self.active)));
        let r = JsonValue::Object(members);
        proof {
            reveal_with_fuel(<JsonValue as View>::view, 2);
        }
        assert(r@->Object_0 =~= Self::encoded(self@)->Object_0);
        r
    }

    proof fn lemma_round_trip(m: TeamView) {
        reveal_strlit("id");
        reveal_strlit("name");
        reveal_strlit("link");
        reveal_strlit("abbreviation");
        reveal_strlit("teamName");
        reveal_strlit("locationName");
        reveal_strlit("firstYearOfPlay");
        reveal_strlit("shortName");
        reveal_strlit("active");
        assert("id"@.len() == 2);
        assert("name"@.len() == 4);
        assert("link"@.len() == 4);
        assert("abbreviation"@.len() == 12);
        assert("teamName"@.len() == 8);
        assert("locationName"@.len() == 12);
        assert("firstYearOfPlay"@.len() == 15);
        assert("shortName"@.len() == 9);
        assert("active"@.len() == 6);
        assert("link"@[0] == 'l');
        assert("name"@[0] == 'n');
        assert("locationName"@[0] == 'l');
        assert("abbreviation"@[0] == 'a');
        let members = Self::encoded(m)->Object_0;
        assert forall|a: int, b: int| 0 <= a < b < 9 implies members[a].0 != members[b].0 by {
            assert(a == 0 || a == 1 || a == 2 || a == 3 || a == 4 || a == 5 || a == 6 || a == 7);
            assert(b == 1 || b == 2 || b == 3 || b == 4 || b == 5 || b == 6 || b == 7 || b == 8);
        }
        lemma_lookup_distinct(members);
    }
}

/// The editorial and media content of a game.
#[derive(Clone, Debug, PartialEq)]
pub struct GameContentResponse {
    pub editorial: GameContentEditorial,
    pub media: Option<GameContentMedia>,
}

/// The value of a [`GameContentResponse`].
pub struct GameContentResponseView {
    pub editorial: GameContentEditorialView,
    pub media: Option<GameContentMediaView>,
}

impl View for GameContentResponse {
    type V = GameContentResponseView;

    open spec fn view(&self) -> GameContentResponseView {
        GameContentResponseView {
            editorial: self.editorial@,
            media: opt_view(self.media),
        }
    }
}

impl Decode for GameContentResponse {
    open spec fn decoded(j: Json) -> Option<GameContentResponseView> {
        if j is Object {
            Some(
                GameContentResponseView {
                    editorial: match record_of::<GameContentEditorial>(member(j, "editorial"@)) {
                        Some(v) => v,
                        None => GameContentEditorialView { preview: None },
                    },
                    media: record_of::<GameContentMedia>(member(j, "media"@)),
                },
            )
        } else {
            None
        }
    }

    fn decode(j: &JsonValue) -> (r: Option<GameContentResponse>) {
        if !j.is_object() {
            return None;
        }
        let editorial = match read_record::<GameContentEditorial>(j.member("editorial")) {
            Some(v) => v,
            None => GameContentEditorial { preview: None },
        };
        let media = read_record::<GameContentMedia>(j.member("media"));
        Some(GameContentResponse {
            editorial,
            media,
        })
    }
}

impl Encode for GameContentResponse {
    open spec fn encoded(m: GameContentResponseView) -> Json {
        Json::Object(
            seq![
                ("editorial"@, GameContentEditorial::encoded(m.editorial)),
                ("media"@, match m.media { Some(v) => GameContentMedia::encoded(v), None => Json::Null }),
            ],
        )
    }

    fn encode(&self) -> (r: JsonValue) {
        let mut members: Vec<(String, JsonValue)> = Vec::new();
        members.push((String::from_str("editorial"), self.editorial.encode()));
        members.push((String::from_str("media"), encode_record_option(&self.media)));
        let r = JsonValue::Object(members);
        proof {
            reveal_with_fuel(<JsonValue as View>::view, 2);
        }
        assert(r@->Object_0 =~= Self::encoded(self@)->Object_0);
        r
    }

    proof fn lemma_round_trip(m: GameContentResponseView) {
        reveal_strlit("editorial");
        reveal_strlit("media");
        assert("editorial"@.len() == 9);
        assert("media"@.len() == 5);
        let members = Self::encoded(m)->Object_0;
        assert forall|a: int, b: int| 0 <= a < b < 2 implies members[a].0 != members[b].0 by {
            assert(a == 0);
            assert(b == 1);
        }
        lemma_lookup_distinct(members);
        GameContentEditorial::lemma_round_trip(m.editorial);
        if let Some(v) = m.media {
            GameContentMedia::lemma_round_trip(v);
        }
    }
}

/// The media of a game.
#[derive(Clone, Debug, PartialEq)]
pub struct GameContentMedia {
    pub epg: Option<Vec<GameContentEpg>>,
}

/// The value of a [`GameContentMedia`].
pub struct GameContentMediaView {
    pub epg: Option<Seq<GameContentEpgView>>,
}

impl View for GameContentMedia {
    type V = GameContentMediaView;

    open spec fn view(&self) -> GameContentMediaView {
        GameContentMediaView {
            epg: opt_views(self.epg),
        }
    }
}

impl Decode for GameContentMedia {
    open spec fn decoded(j: Json) -> Option<GameContentMediaView> {
        if j is Object {
            Some(
                GameContentMediaView {
                    epg: list_of::<GameContentEpg>(member(j, "epg"@)),
                },
            )
        } else {
            None
        }
    }

    fn decode(j: &JsonValue) -> (r: Option<GameContentMedia>) {
        if !j.is_object() {
            return None;
        }
        let epg = read_list::<GameContentEpg>(j.member("epg"));
        Some(GameContentMedia {
            epg,
        })
    }
}

impl Encode for GameContentMedia {
    open spec fn encoded(m: GameContentMediaView) -> Json {
        Json::Object(
            seq![
                ("epg"@, match m.epg { Some(s) => encoded_list::<GameContentEpg>(s), None => Json::Null }),
            ],
        )
    }

    fn encode(&self) -> (r: JsonValue) {
        let mut members: Vec<(String, JsonValue)> = Vec::new();
        members.push((String::from_str("epg"), encode_list_option(&self.epg)));
        let r = JsonValue::Object(members);
        proof {
            reveal_with_fuel(<JsonValue as View>::view, 2);
        }
        assert(r@->Object_0 =~= Self::encoded(self@)->Object_0);
        r
    }

    proof fn lemma_round_trip(m: GameContentMediaView) {
        reveal_strlit("epg");
        assert("epg"@.len() == 3);
        let members = Self::encoded(m)->Object_0;
        lemma_lookup_distinct(members);
        if let Some(s) = m.epg {
            lemma_list_round_trip::<GameContentEpg>(s);
        }
    }
}

/// A broadcast guide entry of a game.
#[derive(Clone, Debug, PartialEq)]
pub struct GameContentEpg {
    pub title: String,
    pub items: Vec<GameContentEpgItem>,
}

/// The value of a [`GameContentEpg`].
pub struct GameContentEpgView {
    pub title: Seq<char>,
    pub items: Seq<GameContentEpgItemView>,
}

impl View for GameContentEpg {
    type V = GameContentEpgView;

    open spec fn view(&self) -> GameContentEpgView {
        GameContentEpgView {
            title: self.title@,
            items: views(self.items@),
        }
    }
}

impl Decode for GameContentEpg {
    open spec fn decoded(j: Json) -> Option<GameContentEpgView> {
        if j is Object && text_or_empty(member(j, "title"@)) is Some && list_or_empty::<GameContentEpgItem>(member(j, "items"@)) is Some {
            Some(
                GameContentEpgView {
                    title: text_or_empty(member(j, "title"@))->0,
                    items: list_or_empty::<GameContentEpgItem>(member(j, "items"@))->0,
                },
            )
        } else {
            None
        }
    }

    fn decode(j: &JsonValue) -> (r: Option<GameContentEpg>) {
        if !j.is_object() {
            return None;
        }
        let title = match text_or_default(j.member("title")) {
            Some(v) => v,
            None => {
                return None;
            },
        };
        let items = match list_or_default::<GameContentEpgItem>(j.member("items")) {
            Some(v) => v,
            None => {
                return None;
            },
        };
        Some(GameContentEpg {
            title,
            items,
        })
    }
}

impl Encode for GameContentEpg {
    open spec fn encoded(m: GameContentEpgView) -> Json {
        Json::Object(
            seq![
                ("title"@, Json::Str(m.title)),
                ("items"@, encoded_list::<GameContentEpgItem>(m.items)),
            ],
        )
    }

    fn encode(&self) -> (r: JsonValue) {
        let mut members: Vec<(String, JsonValue)> = Vec::new();
        members.push((String::from_str("title"), JsonValue::Str(self.title.clone())));
        members.push((String::from_str("items"), encode_list(&self.items)));
        let r = JsonValue::Object(members);
        proof {
            reveal_with_fuel(<JsonValue as View>::view, 2);
        }
        assert(r@->Object_0 =~= Self::encoded(self@)->Object_0);
        r
    }

    proof fn lemma_round_trip(m: GameContentEpgView) {
        reveal_strlit("title");
        reveal_strlit("items");
        assert("title"@.len() == 5);
        assert("items"@.len() == 5);
        assert("items"@[0] == 'i');
        assert("title"@[0] == 't');
        let members = Self::encoded(m)->Object_0;
        assert forall|a: int, b: int| 0 <= a < b < 2 implies members[a].0 != members[b].0 by {
            assert(a == 0);
            assert(b == 1);
        }
        lemma_lookup_distinct(members);
        lemma_list_round_trip::<GameContentEpgItem>(m.items);
    }
}

/// A broadcast of a game.
#[derive(Clone, Debug, PartialEq)]
pub struct GameContentEpgItem {
    pub media_feed_type: Option<String>,
    pub call_letters: Option<String>,
    pub media_state: Option<String>,
    pub id: u32,
}

/// The value of a [`GameContentEpgItem`].
pub struct GameContentEpgItemView {
    pub media_feed_type: Option<Seq<char>>,
    pub call_letters: Option<Seq<char>>,
    pub media_state: Option<Seq<char>>,
    pub id: u32,
}

impl View for GameContentEpgItem {
    type V = GameContentEpgItemView;

    open spec fn view(&self) -> GameContentEpgItemView {
        GameContentEpgItemView {
            media_feed_type: text_views(self.media_feed_type),
            call_letters: text_views(self.call_letters),
            media_state: text_views(self.media_state),
            id: self.id,
        }
    }
}

impl Decode for GameContentEpgItem {
    open spec fn decoded(j: Json) -> Option<GameContentEpgItemView> {
        if j is Object && u32_or_zero(member(j, "id"@)) is Some {
            Some(
                GameContentEpgItemView {
                    media_feed_type: text_of(member(j, "mediaFeedType"@)),
                    call_letters: text_of(member(j, "callLetters"@)),
                    media_state: text_of(member(j, "mediaState"@)),
                    id: u32_or_zero(member(j, "id"@))->0,
                },
            )
        } else {
            None
        }
    }

    fn decode(j: &JsonValue) -> (r: Option<GameContentEpgItem>) {
        if !j.is_object() {
            return None;
        }
        let media_feed_type = read_text(j.member("mediaFeedType"));
        let call_letters = read_text(j.member("callLetters"));
        let media_state = read_text(j.member("mediaState"));
        let id = match u32_or_default(j.member("id")) {
            Some(v) => v,
            None => {
                return None;
            },
        };
        Some(GameContentEpgItem {
            media_feed_type,
            call_letters,
            media_state,
            id,
        })
    }
}

impl Encode for GameContentEpgItem {
    open spec fn encoded(m: GameContentEpgItemView) -> Json {
        Json::Object(
            seq![
                ("mediaFeedType"@, match m.media_feed_type { Some(s) => Json::Str(s), None => Json::Null }),
                ("callLetters"@, match m.call_letters { Some(s) => Json::Str(s), None => Json::Null }),
                ("mediaState"@, match m.media_state { Some(s) => Json::Str(s), None => Json::Null }),
                ("id"@, Json::Number(Some(m.id as u64))),
            ],
        )
    }

    fn encode(&self) -> (r: JsonValue) {
        let mut members: Vec<(String, JsonValue)> = Vec::new();
        members.push((String::from_str("mediaFeedType"), encode_text_option(&self.media_feed_type)));
        members.push((String::from_str("callLetters"), encode_text_option(&self.call_letters)));
        members.push((String::from_str("mediaState"), encode_text_option(&self.media_state)));
        members.push((String::from_str("id"), JsonValue::Number(Some(self.id as u64))));
        let r = JsonValue::Object(members);
        proof {
            reveal_with_fuel(<JsonValue as View>::view, 2);
        }
        assert(r@->Object_0 =~= Self::encoded(self@)->Object_0);
        r
    }

    proof fn lemma_round_trip(m: GameContentEpgItemView) {
        reveal_strlit("mediaFeedType");
        reveal_strlit("callLetters");
        reveal_strlit("mediaState");
        reveal_strlit("id");
        assert("mediaFeedType"@.len() == 13);
        assert("callLetters"@.len() == 11);
        assert("mediaState"@.len() == 10);
        assert("id"@.len() == 2);
        let members = Self::encoded(m)->Object_0;
        assert forall|a: int, b: int| 0 <= a < b < 4 implies members[a].0 != members[b].0 by {
            assert(a == 0 || a == 1 || a == 2);
            assert(b == 1 || b == 2 || b == 3);
        }
        lemma_lookup_distinct(members);
    }
}

/// The editorial content of a game.
#[derive(Clone, Debug, PartialEq)]
pub struct GameContentEditorial {
    /// Absent where upstream omits or garbles it.
    pub preview: Option<GameContentEditorialItem>,
}

/// The value of a [`GameContentEditorial`].
pub struct GameContentEditorialView {
    pub preview: Option<GameContentEditorialItemView>,
}

impl View for GameContentEditorial {
    type V = GameContentEditorialView;

    open spec fn view(&self) -> GameContentEditorialView {
        GameContentEditorialView {
            preview: opt_view(self.preview),
        }
    }
}

impl Decode for GameContentEditorial {
    open spec fn decoded(j: Json) -> Option<GameContentEditorialView> {
        if j is Object {
            Some(
                GameContentEditorialView {
                    preview: record_of::<GameContentEditorialItem>(member(j, "preview"@)),
                },
            )
        } else {
            None
        }
    }

    fn decode(j: &JsonValue) -> (r: Option<GameContentEditorial>) {
        if !j.is_object() {
            return None;
        }
        let preview = read_record::<GameContentEditorialItem>(j.member("preview"));
        Some(GameContentEditorial {
            preview,
        })
    }
}

impl Encode for GameContentEditorial {
    open spec fn encoded(m: GameContentEditorialView) -> Json {
        Json::Object(
            seq![
                ("preview"@, match m.preview { Some(v) => GameContentEditorialItem::encoded(v), None => Json::Null }),
            ],
        )
    }

    fn encode(&self) -> (r: JsonValue) {
        let mut members: Vec<(String, JsonValue)> = Vec::new();
        members.push((String::from_str("preview"), encode_record_option(&self.preview)));
        let r = JsonValue::Object(members);
        proof {
            reveal_with_fuel(<JsonValue as View>::view, 2);
        }
        assert(r@->Object_0 =~= Self::encoded(self@)->Object_0);
        r
    }

    proof fn lemma_round_trip(m: GameContentEditorialView) {
        reveal_strlit("preview");
        assert("preview"@.len() == 7);
        let members = Self::encoded(m)->Object_0;
        lemma_lookup_distinct(members);
        if let Some(v) = m.preview {
            GameContentEditorialItem::lemma_round_trip(v);
        }
    }
}

/// The line score of a game.
#[derive(Clone, Debug, PartialEq)]
pub struct GameLinescoreResponse {
    pub current_inning: u8,
    /// Absent where upstream omits or garbles it.
    pub teams: Option<GameLinescoreTeams>,
}

/// The value of a [`GameLinescoreResponse`].
pub struct GameLinescoreResponseView {
    pub current_inning: u8,
    pub teams: Option<GameLinescoreTeamsView>,
}

impl View for GameLinescoreResponse {
    type V = GameLinescoreResponseView;

    open spec fn view(&self) -> GameLinescoreResponseView {
        GameLinescoreResponseView {
            current_inning: self.current_inning,
            teams: opt_view(self.teams),
        }
    }
}

impl Decode for GameLinescoreResponse {
    open spec fn decoded(j: Json) -> Option<GameLinescoreResponseView> {
        if j is Object && u8_or_zero(member(j, "currentInning"@)) is Some {
            Some(
                GameLinescoreResponseView {
                    current_inning: u8_or_zero(member(j, "currentInning"@))->0,
                    teams: record_of::<GameLinescoreTeams>(member(j, "teams"@)),
                },
            )
        } else {
            None
        }
    }

    fn decode(j: &JsonValue) -> (r: Option<GameLinescoreResponse>) {
        if !j.is_object() {
            return None;
        }
        let current_inning = match u8_or_default(j.member("currentInning")) {
            Some(v) => v,
            None => {
                return None;
            },
        };
        let teams = read_record::<GameLinescoreTeams>(j.member("teams"));
        Some(GameLinescoreResponse {
            current_inning,
            teams,
        })
    }
}

impl Encode for GameLinescoreResponse {
    open spec fn encoded(m: GameLinescoreResponseView) -> Json {
        Json::Object(
            seq![
                ("currentInning"@, Json::Number(Some(m.current_inning as u64))),
                ("teams"@, match m.teams { Some(v) => GameLinescoreTeams::encoded(v), None => Json::Null }),
            ],
        )
    }

    fn encode(&self) -> (r: JsonValue) {
        let mut members: Vec<(String, JsonValue)> = Vec::new();
        members.push((String::from_str("currentInning"), JsonValue::Number(Some(self.current_inning as u64))));
        members.push((String::from_str("teams"), encode_record_option(&self.teams)));
        let r = JsonValue::Object(members);
        proof {
            reveal_with_fuel(<JsonValue as View>::view, 2);
        }
        assert(r@->Object_0 =~= Self::encoded(self@)->Object_0);
        r
    }

    proof fn lemma_round_trip(m: GameLinescoreResponseView) {
        reveal_strlit("currentInning");
        reveal_strlit("teams");
        assert("currentInning"@.len() == 13);
        assert("teams"@.len() == 5);
        let members = Self::encoded(m)->Object_0;
        assert forall|a: int, b: int| 0 <= a < b < 2 implies members[a].0 != members[b].0 by {
            assert(a == 0);
            assert(b == 1);
        }
        lemma_lookup_distinct(members);
        if let Some(v) = m.teams {
            GameLinescoreTeams::lemma_round_trip(v);
        }
    }
}

/// Both sides of a line score.
#[derive(Clone, Debug, PartialEq)]
pub struct GameLinescoreTeams {
    pub home: GameLinescoreTeam,
    pub away: GameLinescoreTeam,
}

/// The value of a [`GameLinescoreTeams`].
pub struct GameLinescoreTeamsView {
    pub home: GameLinescoreTeamView,
    pub away: GameLinescoreTeamView,
}

impl View for GameLinescoreTeams {
    type V = GameLinescoreTeamsView;

    open spec fn view(&self) -> GameLinescoreTeamsView {
        GameLinescoreTeamsView {
            home: self.home@,
            away: self.away@,
        }
    }
}

impl Decode for GameLinescoreTeams {
    open spec fn decoded(j: Json) -> Option<GameLinescoreTeamsView> {
        if j is Object && record_of::<GameLinescoreTeam>(member(j, "home"@)) is Some && record_of::<GameLinescoreTeam>(member(j, "away"@)) is Some {
            Some(
                GameLinescoreTeamsView {
                    home: record_of::<GameLinescoreTeam>(member(j, "home"@))->0,
                    away: record_of::<GameLinescoreTeam>(member(j, "away"@))->0,
                },
            )
        } else {
            None
        }
    }

    fn decode(j: &JsonValue) -> (r: Option<GameLinescoreTeams>) {
        if !j.is_object() {
            return None;
        }
        let home = match read_record::<GameLinescoreTeam>(j.member("home")) {
            Some(v) => v,
            None => {
                return None;
            },
        };
        let away = match read_record::<GameLinescoreTeam>(j.member("away")) {
            Some(v) => v,
            None => {
                return None;
            },
        };
        Some(GameLinescoreTeams {
            home,
            away,
        })
    }
}

impl Encode for GameLinescoreTeams {
    open spec fn encoded(m: GameLinescoreTeamsView) -> Json {
        Json::Object(
            seq![
                ("home"@, GameLinescoreTeam::encoded(m.home)),
                ("away"@, GameLinescoreTeam::encoded(m.away)),
            ],
        )
    }

    fn encode(&self) -> (r: JsonValue) {
        let mut members: Vec<(String, JsonValue)> = Vec::new();
        members.push((String::from_str("home"), self.home.encode()));
        members.push((String::from_str("away"), self.away.encode()));
        let r = JsonValue::Object(members);
        proof {
            reveal_with_fuel(<JsonValue as View>::view, 2);
        }
        assert(r@->Object_0 =~= Self::encoded(self@)->Object_0);
        r
    }

    proof fn lemma_round_trip(m: GameLinescoreTeamsView) {
        reveal_strlit("home");
        reveal_strlit("away");
        assert("home"@.len() == 4);
        assert("away"@.len() == 4);
        assert("away"@[0] == 'a');
        assert("home"@[0] == 'h');
        let members = Self::encoded(m)->Object_0;
        assert forall|a: int, b: int| 0 <= a < b < 2 implies members[a].0 != members[b].0 by {
            assert(a == 0);
            assert(b == 1);
        }
        lemma_lookup_distinct(members);
        GameLinescoreTeam::lemma_round_trip(m.home);
        GameLinescoreTeam::lemma_round_trip(m.away);
    }
}

/// One side of a line score.
#[derive(Clone, Debug, PartialEq)]
pub struct GameLinescoreTeam {
    pub runs: u32,
    pub hits: u32,
    pub errors: u32,
    pub left_on_base: u32,
}

/// The value of a [`GameLinescoreTeam`].
pub struct GameLinescoreTeamView {
    pub runs: u32,
    pub hits: u32,
    pub errors: u32,
    pub left_on_base: u32,
}

impl View for GameLinescoreTeam {
    type V = GameLinescoreTeamView;

    open spec fn view(&self) -> GameLinescoreTeamView {
        GameLinescoreTeamView {
            runs: self.runs,
            hits: self.hits,
            errors: self.errors,
            left_on_base: self.left_on_base,
        }
    }
}

impl Decode for GameLinescoreTeam {
    open spec fn decoded(j: Json) -> Option<GameLinescoreTeamView> {
        if j is Object && u32_or_zero(member(j, "runs"@)) is Some && u32_or_zero(member(j, "hits"@)) is Some && u32_or_zero(member(j, "errors"@)) is Some && u32_or_zero(member(j, "leftOnBase"@)) is Some {
            Some(
                GameLinescoreTeamView {
                    runs: u32_or_zero(member(j, "runs"@))->0,
                    hits: u32_or_zero(member(j, "hits"@))->0,
                    errors: u32_or_zero(member(j, "errors"@))->0,
                    left_on_base: u32_or_zero(member(j, "leftOnBase"@))->0,
                },
            )
        } else {
            None
        }
    }

    fn decode(j: &JsonValue) -> (r: Option<GameLinescoreTeam>) {
        if !j.is_object() {
            return None;
        }
        let runs = match u32_or_default(j.member("runs")) {
            Some(v) => v,
            None => {
                return None;
            },
        };
        let hits = match u32_or_default(j.member("hits")) {
            Some(v) => v,
            None => {
                return None;
            },
        };
        let errors = match u32_or_default(j.member("errors")) {
            Some(v) => v,
            None => {
                return None;
            },
        };
        let left_on_base = match u32_or_default(j.member("leftOnBase")) {
            Some(v) => v,
            None => {
                return None;
            },
        };
        Some(GameLinescoreTeam {
            runs,
            hits,
            errors,
            left_on_base,
        })
    }
}

impl Encode for GameLinescoreTeam {
    open spec fn encoded(m: GameLinescoreTeamView) -> Json {
        Json::Object(
            seq![
                ("runs"@, Json::Number(Some(m.runs as u64))),
                ("hits"@, Json::Number(Some(m.hits as u64))),
                ("errors"@, Json::Number(Some(m.errors as u64))),
                ("leftOnBase"@, Json::Number(Some(m.left_on_base as u64))),
            ],
        )
    }

    fn encode(&self) -> (r: JsonValue) {
        let mut members: Vec<(String, JsonValue)> = Vec::new();
        members.push((String::from_str("runs"), JsonValue::Number(Some(self.runs as u64))));
        members.push((String::from_str("hits"), JsonValue::Number(Some(self.hits as u64))));
        members.push((String::from_str("errors"), JsonValue::Number(Some(self.errors as u64))));
        members.push((String::from_str("leftOnBase"), JsonValue::Number(Some(self.left_on_base as u64))));
        let r = JsonValue::Object(members);
        proof {
            reveal_with_fuel(<JsonValue as View>::view, 2);
        }
        assert(r@->Object_0 =~= Self::encoded(self@)->Object_0);
        r
    }

    proof fn lemma_round_trip(m: GameLinescoreTeamView) {
        reveal_strlit("runs");
        reveal_strlit("hits");
        reveal_strlit("errors");
        reveal_strlit("leftOnBase");
        assert("runs"@.len() == 4);
        assert("hits"@.len() == 4);
        assert("errors"@.len() == 6);
        assert("leftOnBase"@.len() == 10);
        assert("hits"@[0] == 'h');
        assert("runs"@[0] == 'r');
        let members = Self::encoded(m)->Object_0;
        assert forall|a: int, b: int| 0 <= a < b < 4 implies members[a].0 != members[b].0 by {
            assert(a == 0 || a == 1 || a == 2);
            assert(b == 1 || b == 2 || b == 3);
        }
        lemma_lookup_distinct(members);
    }
}

} // verus!
