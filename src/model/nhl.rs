use vstd::prelude::*;
use crate::decode::{
    bool_or_default, bool_or_false, instant_field, list_of, list_or_default, list_or_empty,
    number_u32, opt_view, opt_views, read_instant, read_list, read_record, read_text, read_u32,
    record_of, text_of, text_or_default, text_or_empty, text_views, u32_or_default, u32_or_zero,
    u8_or_default, u8_or_zero, views, Decode, Timestamp,
};
use crate::encode::{
    encode_list, encode_list_option, encode_record_option, encode_text_option, encoded_list,
    lemma_list_round_trip, Encode,
};
use crate::json::{lemma_lookup_distinct, member, Json, JsonValue};
pub use crate::model::{
    GameContentArticleMedia, GameContentArticleMediaImage, GameContentArticleMediaImageCut,
    GameContentArticleMediaImageCutDetail, GameContentArticleMediaImageCutDetailView,
    GameContentArticleMediaImageCutView, GameContentArticleMediaImageView,
    GameContentArticleMediaView, GameContentEditorialItem, GameContentEditorialItemArticle,
    GameContentEditorialItemArticleView, GameContentEditorialItemView, Schedule, ScheduleGame,
    ScheduleGameTeam, ScheduleGameTeamDetail, ScheduleGameTeamDetailView, ScheduleGameTeamView,
    ScheduleGameTeams, ScheduleGameTeamsView, ScheduleGameView, ScheduleResponse,
    ScheduleResponseView, ScheduleView,
};
use crate::client::{decode_body, decoded_body};
use crate::error::ClientError;

verus! {

/// The teams that a team query returns.
#[derive(Clone, Debug, PartialEq)]
pub struct TeamsResponse {
    pub teams: Vec<Team>,
}

/// The value of a [`TeamsResponse`].
pub struct TeamsResponseView {
    pub teams: Seq<TeamView>,
}

impl View for TeamsResponse {
    type V = TeamsResponseView;

    open spec fn view(&self) -> TeamsResponseView {
        TeamsResponseView {
            teams: views(self.teams@),
        }
    }
}

impl Decode for TeamsResponse {
    open spec fn decoded(j: Json) -> Option<TeamsResponseView> {
        if j is Object && list_or_empty::<Team>(member(j, "teams"@)) is Some {
            Some(
                TeamsResponseView {
                    teams: list_or_empty::<Team>(member(j, "teams"@))->0,
                },
            )
        } else {
            None
        }
    }

    fn decode(j: &JsonValue) -> (r: Option<TeamsResponse>) {
        if !j.is_object() {
            return None;
        }
        let teams = match list_or_default::<Team>(j.member("teams")) {
            Some(v) => v,
            None => {
                return None;
            },
        };
        Some(TeamsResponse {
            teams,
        })
    }
}

impl Encode for TeamsResponse {
    open spec fn encoded(m: TeamsResponseView) -> Json {
        Json::Object(
            seq![
                ("teams"@, encoded_list::<Team>(m.teams)),
            ],
        )
    }

    fn encode(&self) -> (r: JsonValue) {
        let mut members: Vec<(String, JsonValue)> = Vec::new();
        members.push((String::from_str("teams"), encode_list(&self.teams)));
        let r = JsonValue::Object(members);
        proof {
            reveal_with_fuel(<JsonValue as View>::view, 2);
        }
        assert(r@->Object_0 =~= Self::encoded(self@)->Object_0);
        r
    }

    proof fn lemma_round_trip(m: TeamsResponseView) {
        reveal_strlit("teams");
        assert("teams"@.len() == 5);
        let members = Self::encoded(m)->Object_0;
        lemma_lookup_distinct(members);
        lemma_list_round_trip::<Team>(m.teams);
    }
}

/// A team of the hockey league.
#[derive(Clone, Debug, PartialEq)]
pub struct Team {
    pub id: u32,
    pub name: String,
    pub link: String,
    pub abbreviation: String,
    pub team_name: String,
    pub location_name: String,
    pub first_year_of_play: Option<String>,
    pub short_name: Option<String>,
    pub official_site_url: Option<String>,
    pub franchise_id: u32,
    pub active: bool,
}

/// The value of a [`Team`].
pub struct TeamView {
    pub id: u32,
    pub name: Seq<char>,
    pub link: Seq<char>,
    pub abbreviation: Seq<char>,
    pub team_name: Seq<char>,
    pub location_name: Seq<char>,
    pub first_year_of_play: Option<Seq<char>>,
    pub short_name: Option<Seq<char>>,
    pub official_site_url: Option<Seq<char>>,
    pub franchise_id: u32,
    pub active: bool,
}

impl View for Team {
    type V = TeamView;

    open spec fn view(&self) -> TeamView {
        TeamView {
            id: self.id,
            name: self.name@,
            link: self.link@,
            abbreviation: self.abbreviation@,
            team_name: self.team_name@,
            location_name: self.location_name@,
            first_year_of_play: text_views(self.first_year_of_play),
            short_name: text_views(self.short_name),
            official_site_url: text_views(self.official_site_url),
            franchise_id: self.franchise_id,
            active: self.active,
        }
    }
}

impl Decode for Team {
    open spec fn decoded(j: Json) -> Option<TeamView> {
        if j is Object && number_u32(member(j, "id"@)) is Some && text_or_empty(member(j, "name"@)) is Some && text_or_empty(member(j, "link"@)) is Some && text_or_empty(member(j, "abbreviation"@)) is Some && text_or_empty(member(j, "teamName"@)) is Some && text_or_empty(member(j, "locationName"@)) is Some && u32_or_zero(member(j, "franchiseId"@)) is Some && bool_or_false(member(j, "active"@)) is Some {
            Some(
                TeamView {
                    id: number_u32(member(j, "id"@))->0,
                    name: text_or_empty(member(j, "name"@))->0,
                    link: text_or_empty(member(j, "link"@))->0,
                    abbreviation: text_or_empty(member(j, "abbreviation"@))->0,
                    team_name: text_or_empty(member(j, "teamName"@))->0,
                    location_name: text_or_empty(member(j, "locationName"@))->0,
                    first_year_of_play: text_of(member(j, "firstYearOfPlay"@)),
                    short_name: text_of(member(j, "shortName"@)),
                    official_site_url: text_of(member(j, "officialSiteUrl"@)),
                    franchise_id: u32_or_zero(member(j, "franchiseId"@))->0,
                    active: bool_or_false(member(j, "active"@))->0,
                },
            )
        } else {
            None
        }
    }

    fn decode(j: &JsonValue) -> (r: Option<Team>) {
        if !j.is_object() {
            return None;
        }
        let id = match read_u32(j.member("id")) {
            Some(v) => v,
            None => {
                return None;
            },
        };
        let name = match text_or_default(j.member("name")) {
            Some(v) => v,
            None => {
                return None;
            },
        };
        let link = match text_or_default(j.member("link")) {
            Some(v) => v,
            None => {
                return None;
            },
        };
        let abbreviation = match text_or_default(j.member("abbreviation")) {
            Some(v) => v,
            None => {
                return None;
            },
        };
        let team_name = match text_or_default(j.member("teamName")) {
            Some(v) => v,
            None => {
                return None;
            },
        };
        let location_name = match text_or_default(j.member("locationName")) {
            Some(v) => v,
            None => {
                return None;
            },
        };
        let first_year_of_play = read_text(j.member("firstYearOfPlay"));
        let short_name = read_text(j.member("shortName"));
        let official_site_url = read_text(j.member("officialSiteUrl"));
        let franchise_id = match u32_or_default(j.member("franchiseId")) {
            Some(v) => v,
            None => {
                return None;
            },
        };
        let active = match bool_or_default(j.member("active")) {
            Some(v) => v,
            None => {
                return None;
            },
        };
        Some(Team {
            id,
            name,
            link,
            abbreviation,
            team_name,
            location_name,
            first_year_of_play,
            short_name,
            official_site_url,
            franchise_id,
            active,
        })
    }
}

impl Encode for Team {
    open spec fn encoded(m: TeamView) -> Json {
        Json::Object(
            seq![
                ("id"@, Json::Number(Some(m.id as u64))),
                ("name"@, Json::Str(m.name)),
                ("link"@, Json::Str(m.link)),
                ("abbreviation"@, Json::Str(m.abbreviation)),
                ("teamName"@, Json::Str(m.team_name)),
                ("locationName"@, Json::Str(m.location_name)),
                ("firstYearOfPlay"@, match m.first_year_of_play { Some(s) => Json::Str(s), None => Json::Null }),
                ("shortName"@, match m.short_name { Some(s) => Json::Str(s), None => Json::Null }),
                ("officialSiteUrl"@, match m.official_site_url { Some(s) => Json::Str(s), None => Json::Null }),
                ("franchiseId"@, Json::Number(Some(m.franchise_id as u64))),
                ("active"@, Json::Bool(m.active)),
            ],
        )
    }

    fn encode(&self) -> (r: JsonValue) {
        let mut members: Vec<(String, JsonValue)> = Vec::new();
        members.push((String::from_str("id"), JsonValue::Number(Some(self.id as u64))));
        members.push((String::from_str("name"), JsonValue::Str(self.name.clone())));
        members.push((String::from_str("link"), JsonValue::Str(self.link.clone())));
        members.push((String::from_str("abbreviation"), JsonValue::Str(self.abbreviation.clone())));
        members.push((String::from_str("teamName"), JsonValue::Str(self.team_name.clone())));
        members.push((String::from_str("locationName"), JsonValue::Str(self.location_name.clone())));
        members.push((String::from_str("firstYearOfPlay"), encode_text_option(&self.first_year_of_play)));
        members.push((String::from_str("shortName"), encode_text_option(&self.short_name)));
        members.push((String::from_str("officialSiteUrl"), encode_text_option(&self.official_site_url)));
        members.push((String::from_str("franchiseId"), JsonValue::Number(Some(self.franchise_id as u64))));
        members.push((String::from_str("active"), JsonValue::Bool(self.active)));
        let r = JsonValue::Object(members);
        proof {
            reveal_with_fuel(<JsonValue as View>::view, 2);
        }
        assert(r@->Object_0 =~= Self::encoded(self@)->Object_0);
        r
    }

    proof fn lemma_round_trip(m: TeamView) {
        reveal_strlit("id");
        reveal_strlit("name");
        reveal_strlit("link");
        reveal_strlit("abbreviation");
        reveal_strlit("teamName");
        reveal_strlit("locationName");
        reveal_strlit("firstYearOfPlay");
        reveal_strlit("shortName");
        reveal_strlit("officialSiteUrl");
        reveal_strlit("franchiseId");
        reveal_strlit("active");
        assert("id"@.len() == 2);
        assert("name"@.len() == 4);
        assert("link"@.len() == 4);
        assert("abbreviation"@.len() == 12);
        assert("teamName"@.len() == 8);
        assert("locationName"@.len() == 12);
        assert("firstYearOfPlay"@.len() == 15);
        assert("shortName"@.len() == 9);
        assert("officialSiteUrl"@.len() == 15);
        assert("franchiseId"@.len() == 11);
        assert("active"@.len() == 6);
        assert("link"@[0] == 'l');
        assert("name"@[0] == 'n');
        assert("locationName"@[0] == 'l');
        assert("abbreviation"@[0] == 'a');
        assert("officialSiteUrl"@[0] == 'o');
        assert("firstYearOfPlay"@[0] == 'f');
        let members = Self::encoded(m)->Object_0;
        assert forall|a: int, b: int| 0 <= a < b < 11 implies members[a].0 != members[b].0 by {
            assert(a == 0 || a == 1 || a == 2 || a == 3 || a == 4 || a == 5 || a == 6 || a == 7 || a == 8 || a == 9);
            assert(b == 1 || b == 2 || b == 3 || b == 4 || b == 5 || b == 6 || b == 7 || b == 8 || b == 9 || b == 10);
        }
        lemma_lookup_distinct(members);
    }
}

/// The editorial and media content of a game.
#[derive(Clone, Debug, PartialEq)]
pub struct GameContentResponse {
    /// Without a preview where upstream omits or garbles it.
    pub editorial: GameContentEditorial,
    /// Empty where upstream omits or garbles it.
    pub media: GameContentMedia,
}

/// The value of a [`GameContentResponse`].
pub struct GameContentResponseView {
    pub editorial: GameContentEditorialView,
    pub media: GameContentMediaView,
}

impl View for GameContentResponse {
    type V = GameContentResponseView;

    open spec fn view(&self) -> GameContentResponseView {
        GameContentResponseView {
            editorial: self.editorial@,
            media: self.media@,
        }
    }
}

impl Decode for GameContentResponse {
    open spec fn decoded(j: Json) -> Option<GameContentResponseView> {
        if j is Object {
            Some(
                GameContentResponseView {
                    editorial: match record_of::<GameContentEditorial>(member(j, "editorial"@)) {
                        Some(v) => v,
                        None => GameContentEditorialView { preview: None },
                    },
                    media: match record_of::<GameContentMedia>(member(j, "media"@)) {
                        Some(v) => v,
                        None => GameContentMediaView { milestones: GameContentMilestonesView { stream_start: None, items: None }, epg: Seq::empty() },
                    },
                },
            )
        } else {
            None
        }
    }

    fn decode(j: &JsonValue) -> (r: Option<GameContentResponse>) {
        if !j.is_object() {
            return None;
        }
        let editorial = match read_record::<GameContentEditorial>(j.member("editorial")) {
            Some(v) => v,
            None => GameContentEditorial { preview: None },
        };
        let media = match read_record::<GameContentMedia>(j.member("media")) {
            Some(v) => v,
            None => {
                let d = GameContentMedia { milestones: GameContentMilestones { stream_start: None, items: None }, epg: Vec::new() };
                assert(views(d.epg@) =~= Seq::<GameContentEpgView>::empty());
                d
            },
        };
        Some(GameContentResponse {
            editorial,
            media,
        })
    }
}

/// The media of a game.
#[derive(Clone, Debug, PartialEq)]
pub struct GameContentMedia {
    /// Empty where upstream omits or garbles them.
    pub milestones: GameContentMilestones,
    pub epg: Vec<GameContentEpg>,
}

/// The value of a [`GameContentMedia`].
pub struct GameContentMediaView {
    pub milestones: GameContentMilestonesView,
    pub epg: Seq<GameContentEpgView>,
}

impl View for GameContentMedia {
    type V = GameContentMediaView;

    open spec fn view(&self) -> GameContentMediaView {
        GameContentMediaView {
            milestones: self.milestones@,
            epg: views(self.epg@),
        }
    }
}

impl Decode for GameContentMedia {
    open spec fn decoded(j: Json) -> Option<GameContentMediaView> {
        if j is Object && list_or_empty::<GameContentEpg>(member(j, "epg"@)) is Some {
            Some(
                GameContentMediaView {
                    milestones: match record_of::<GameContentMilestones>(member(j, "milestones"@)) {
                        Some(v) => v,
                        None => GameContentMilestonesView { stream_start: None, items: None },
                    },
                    epg: list_or_empty::<GameContentEpg>(member(j, "epg"@))->0,
                },
            )
        } else {
            None
        }
    }

    fn decode(j: &JsonValue) -> (r: Option<GameContentMedia>) {
        if !j.is_object() {
            return None;
        }
        let milestones = match read_record::<GameContentMilestones>(j.member("milestones")) {
            Some(v) => v,
            None => GameContentMilestones { stream_start: None, items: None },
        };
        let epg = match list_or_default::<GameContentEpg>(j.member("epg")) {
            Some(v) => v,
            None => {
                return None;
            },
        };
        Some(GameContentMedia {
            milestones,
            epg,
        })
    }
}

/// A broadcast guide entry of a game.
#[derive(Clone, Debug, PartialEq)]
pub struct GameContentEpg {
    pub title: String,
    pub items: Option<Vec<GameContentEpgItem>>,
}

/// The value of a [`GameContentEpg`].
pub struct GameContentEpgView {
    pub title: Seq<char>,
    pub items: Option<Seq<GameContentEpgItemView>>,
}

impl View for GameContentEpg {
    type V = GameContentEpgView;

    open spec fn view(&self) -> GameContentEpgView {
        GameContentEpgView {
            title: self.title@,
            items: opt_views(self.items),
        }
    }
}

impl Decode for GameContentEpg {
    open spec fn decoded(j: Json) -> Option<GameContentEpgView> {
        if j is Object && text_or_empty(member(j, "title"@)) is Some {
            Some(
                GameContentEpgView {
                    title: text_or_empty(member(j, "title"@))->0,
                    items: list_of::<GameContentEpgItem>(member(j, "items"@)),
                },
            )
        } else {
            None
        }
    }

    fn decode(j: &JsonValue) -> (r: Option<GameContentEpg>) {
        if !j.is_object() {
            return None;
        }
        let title = match text_or_default(j.member("title")) {
            Some(v) => v,
            None => {
                return None;
            },
        };
        let items = read_list::<GameContentEpgItem>(j.member("items"));
        Some(GameContentEpg {
            title,
            items,
        })
    }
}

impl Encode for GameContentEpg {
    open spec fn encoded(m: GameContentEpgView) -> Json {
        Json::Object(
            seq![
                ("title"@, Json::Str(m.title)),
                ("items"@, match m.items { Some(s) => encoded_list::<GameContentEpgItem>(s), None => Json::Null }),
            ],
        )
    }

    fn encode(&self) -> (r: JsonValue) {
        let mut members: Vec<(String, JsonValue)> = Vec::new();
        members.push((String::from_str("title"), JsonValue::Str(self.title.clone())));
        members.push((String::from_str("items"), encode_list_option(&self.items)));
        let r = JsonValue::Object(members);
        proof {
            reveal_with_fuel(<JsonValue as View>::view, 2);
        }
        assert(r@->Object_0 =~= Self::encoded(self@)->Object_0);
        r
    }

    proof fn lemma_round_trip(m: GameContentEpgView) {
        reveal_strlit("title");
        reveal_strlit("items");
        assert("title"@.len() == 5);
        assert("items"@.len() == 5);
        assert("items"@[0] == 'i');
        assert("title"@[0] == 't');
        let members = Self::encoded(m)->Object_0;
        assert forall|a: int, b: int| 0 <= a < b < 2 implies members[a].0 != members[b].0 by {
            assert(a == 0);
            assert(b == 1);
        }
        lemma_lookup_distinct(members);
        if let Some(s) = m.items {
            lemma_list_round_trip::<GameContentEpgItem>(s);
        }
    }
}

/// A broadcast of a game.
#[derive(Clone, Debug, PartialEq)]
pub struct GameContentEpgItem {
    pub media_feed_type: String,
    pub call_letters: String,
    pub media_state: String,
    pub media_playback_id: String,
}

/// The value of a [`GameContentEpgItem`].
pub struct GameContentEpgItemView {
    pub media_feed_type: Seq<char>,
    pub call_letters: Seq<char>,
    pub media_state: Seq<char>,
    pub media_playback_id: Seq<char>,
}

impl View for GameContentEpgItem {
    type V = GameContentEpgItemView;

    open spec fn view(&self) -> GameContentEpgItemView {
        GameContentEpgItemView {
            media_feed_type: self.media_feed_type@,
            call_letters: self.call_letters@,
            media_state: self.media_state@,
            media_playback_id: self.media_playback_id@,
        }
    }
}

impl Decode for GameContentEpgItem {
    open spec fn decoded(j: Json) -> Option<GameContentEpgItemView> {
        if j is Object && text_or_empty(member(j, "mediaFeedType"@)) is Some && text_or_empty(member(j, "callLetters"@)) is Some && text_or_empty(member(j, "mediaState"@)) is Some && text_or_empty(member(j, "mediaPlaybackId"@)) is Some {
            Some(
                GameContentEpgItemView {
                    media_feed_type: text_or_empty(member(j, "mediaFeedType"@))->0,
                    call_letters: text_or_empty(member(j, "callLetters"@))->0,
                    media_state: text_or_empty(member(j, "mediaState"@))->0,
                    media_playback_id: text_or_empty(member(j, "mediaPlaybackId"@))->0,
                },
            )
        } else {
            None
        }
    }

    fn decode(j: &JsonValue) -> (r: Option<GameContentEpgItem>) {
        if !j.is_object() {
            return None;
        }
        let media_feed_type = match text_or_default(j.member("mediaFeedType")) {
            Some(v) => v,
            None => {
                return None;
            },
        };
        let call_letters = match text_or_default(j.member("callLetters")) {
            Some(v) => v,
            None => {
                return None;
            },
        };
        let media_state = match text_or_default(j.member("mediaState")) {
            Some(v) => v,
            None => {
                return None;
            },
        };
        let media_playback_id = match text_or_default(j.member("mediaPlaybackId")) {
            Some(v) => v,
            None => {
                return None;
            },
        };
        Some(GameContentEpgItem {
            media_feed_type,
            call_letters,
            media_state,
            media_playback_id,
        })
    }
}

impl Encode for GameContentEpgItem {
    open spec fn encoded(m: GameContentEpgItemView) -> Json {
        Json::Object(
            seq![
                ("mediaFeedType"@, Json::Str(m.media_feed_type)),
                ("callLetters"@, Json::Str(m.call_letters)),
                ("mediaState"@, Json::Str(m.media_state)),
                ("mediaPlaybackId"@, Json::Str(m.media_playback_id)),
            ],
        )
    }

    fn encode(&self) -> (r: JsonValue) {
        let mut members: Vec<(String, JsonValue)> = Vec::new();
        members.push((String::from_str("mediaFeedType"), JsonValue::Str(self.media_feed_type.clone())));
        members.push((String::from_str("callLetters"), JsonValue::Str(self.call_letters.clone())));
        members.push((String::from_str("mediaState"), JsonValue::Str(self.media_state.clone())));
        members.push((String::from_str("mediaPlaybackId"), JsonValue::Str(self.media_playback_id.clone())));
        let r = JsonValue::Object(members);
        proof {
            reveal_with_fuel(<JsonValue as View>::view, 2);
        }
        assert(r@->Object_0 =~= Self::encoded(self@)->Object_0);
        r
    }

    proof fn lemma_round_trip(m: GameContentEpgItemView) {
        reveal_strlit("mediaFeedType");
        reveal_strlit("callLetters");
        reveal_strlit("mediaState");
        reveal_strlit("mediaPlaybackId");
        assert("mediaFeedType"@.len() == 13);
        assert("callLetters"@.len() == 11);
        assert("mediaState"@.len() == 10);
        assert("mediaPlaybackId"@.len() == 15);
        let members = Self::encoded(m)->Object_0;
        assert forall|a: int, b: int| 0 <= a < b < 4 implies members[a].0 != members[b].0 by {
            assert(a == 0 || a == 1 || a == 2);
            assert(b == 1 || b == 2 || b == 3);
        }
        lemma_lookup_distinct(members);
    }
}

/// The editorial content of a game.
#[derive(Clone, Debug, PartialEq)]
pub struct GameContentEditorial {
    /// Absent where upstream omits or garbles it.
    pub preview: Option<GameContentEditorialItem>,
}

/// The value of a [`GameContentEditorial`].
pub struct GameContentEditorialView {
    pub preview: Option<GameContentEditorialItemView>,
}

impl View for GameContentEditorial {
    type V = GameContentEditorialView;

    open spec fn view(&self) -> GameContentEditorialView {
        GameContentEditorialView {
            preview: opt_view(self.preview),
        }
    }
}

impl Decode for GameContentEditorial {
    open spec fn decoded(j: Json) -> Option<GameContentEditorialView> {
        if j is Object {
            Some(
                GameContentEditorialView {
                    preview: record_of::<GameContentEditorialItem>(member(j, "preview"@)),
                },
            )
        } else {
            None
        }
    }

    fn decode(j: &JsonValue) -> (r: Option<GameContentEditorial>) {
        if !j.is_object() {
            return None;
        }
        let preview = read_record::<GameContentEditorialItem>(j.member("preview"));
        Some(GameContentEditorial {
            preview,
        })
    }
}

impl Encode for GameContentEditorial {
    open spec fn encoded(m: GameContentEditorialView) -> Json {
        Json::Object(
            seq![
                ("preview"@, match m.preview { Some(v) => GameContentEditorialItem::encoded(v), None => Json::Null }),
            ],
        )
    }

    fn encode(&self) -> (r: JsonValue) {
        let mut members: Vec<(String, JsonValue)> = Vec::new();
        members.push((String::from_str("preview"), encode_record_option(&self.preview)));
        let r = JsonValue::Object(members);
        proof {
            reveal_with_fuel(<JsonValue as View>::view, 2);
        }
        assert(r@->Object_0 =~= Self::encoded(self@)->Object_0);
        r
    }

    proof fn lemma_round_trip(m: GameContentEditorialView) {
        reveal_strlit("preview");
        assert("preview"@.len() == 7);
        let members = Self::encoded(m)->Object_0;
        lemma_lookup_distinct(members);
        if let Some(v) = m.preview {
            GameContentEditorialItem::lemma_round_trip(v);
        }
    }
}

/// The key moments of a game.
#[derive(Clone, Debug, PartialEq)]
pub struct GameContentMilestones {
    pub stream_start: Option<Timestamp>,
    pub items: Option<Vec<GameContentMilestoneItem>>,
}

/// The value of a [`GameContentMilestones`].
pub struct GameContentMilestonesView {
    pub stream_start: Option<Timestamp>,
    pub items: Option<Seq<GameContentMilestoneItemView>>,
}

impl View for GameContentMilestones {
    type V = GameContentMilestonesView;

    open spec fn view(&self) -> GameContentMilestonesView {
        GameContentMilestonesView {
            stream_start: self.stream_start,
            items: opt_views(self.items),
        }
    }
}

impl Decode for GameContentMilestones {
    open spec fn decoded(j: Json) -> Option<GameContentMilestonesView> {
        if j is Object {
            Some(
                GameContentMilestonesView {
                    stream_start: instant_field(member(j, "streamStart"@)),
                    items: list_of::<GameContentMilestoneItem>(member(j, "items"@)),
                },
            )
        } else {
            None
        }
    }

    fn decode(j: &JsonValue) -> (r: Option<GameContentMilestones>) {
        if !j.is_object() {
            return None;
        }
        let stream_start = read_instant(j.member("streamStart"));
        let items = read_list::<GameContentMilestoneItem>(j.member("items"));
        Some(GameContentMilestones {
            stream_start,
            items,
        })
    }
}

/// A key moment of a game.
#[derive(Clone, Debug, PartialEq)]
pub struct GameContentMilestoneItem {
    pub description: String,
    pub kind: String,
    pub period: String,
    pub period_time: String,
    pub ordinal_num: String,
    pub team_id: String,
    pub stats_event_id: String,
    pub highlight: Option<GameContentMilestoneItemHighlight>,
}

/// The value of a [`GameContentMilestoneItem`].
pub struct GameContentMilestoneItemView {
    pub description: Seq<char>,
    pub kind: Seq<char>,
    pub period: Seq<char>,
    pub period_time: Seq<char>,
    pub ordinal_num: Seq<char>,
    pub team_id: Seq<char>,
    pub stats_event_id: Seq<char>,
    pub highlight: Option<GameContentMilestoneItemHighlightView>,
}

impl View for GameContentMilestoneItem {
    type V = GameContentMilestoneItemView;

    open spec fn view(&self) -> GameContentMilestoneItemView {
        GameContentMilestoneItemView {
            description: self.description@,
            kind: self.kind@,
            period: self.period@,
            period_time: self.period_time@,
            ordinal_num: self.ordinal_num@,
            team_id: self.team_id@,
            stats_event_id: self.stats_event_id@,
            highlight: opt_view(self.highlight),
        }
    }
}

impl Decode for GameContentMilestoneItem {
    open spec fn decoded(j: Json) -> Option<GameContentMilestoneItemView> {
        if j is Object && text_or_empty(member(j, "description"@)) is Some && text_or_empty(member(j, "type"@)) is Some && text_or_empty(member(j, "period"@)) is Some && text_or_empty(member(j, "periodTime"@)) is Some && text_or_empty(member(j, "ordinalNum"@)) is Some && text_or_empty(member(j, "teamId"@)) is Some && text_or_empty(member(j, "statsEventId"@)) is Some {
            Some(
                GameContentMilestoneItemView {
                    description: text_or_empty(member(j, "description"@))->0,
                    kind: text_or_empty(member(j, "type"@))->0,
                    period: text_or_empty(member(j, "period"@))->0,
                    period_time: text_or_empty(member(j, "periodTime"@))->0,
                    ordinal_num: text_or_empty(member(j, "ordinalNum"@))->0,
                    team_id: text_or_empty(member(j, "teamId"@))->0,
                    stats_event_id: text_or_empty(member(j, "statsEventId"@))->0,
                    highlight: record_of::<GameContentMilestoneItemHighlight>(member(j, "highlight"@)),
                },
            )
        } else {
            None
        }
    }

    fn decode(j: &JsonValue) -> (r: Option<GameContentMilestoneItem>) {
        if !j.is_object() {
            return None;
        }
        let description = match text_or_default(j.member("description")) {
            Some(v) => v,
            None => {
                return None;
            },
        };
        let kind = match text_or_default(j.member("type")) {
            Some(v) => v,
            None => {
                return None;
            },
        };
        let period = match text_or_default(j.member("period")) {
            Some(v) => v,
            None => {
                return None;
            },
        };
        let period_time = match text_or_default(j.member("periodTime")) {
            Some(v) => v,
            None => {
                return None;
            },
        };
        let ordinal_num = match text_or_default(j.member("ordinalNum")) {
            Some(v) => v,
            None => {
                return None;
            },
        };
        let team_id = match text_or_default(j.member("teamId")) {
            Some(v) => v,
            None => {
                return None;
            },
        };
        let stats_event_id = match text_or_default(j.member("statsEventId")) {
            Some(v) => v,
            None => {
                return None;
            },
        };
        let highlight = read_record::<GameContentMilestoneItemHighlight>(j.member("highlight"));
        Some(GameContentMilestoneItem {
            description,
            kind,
            period,
            period_time,
            ordinal_num,
            team_id,
            stats_event_id,
            highlight,
        })
    }
}

impl Encode for GameContentMilestoneItem {
    open spec fn encoded(m: GameContentMilestoneItemView) -> Json {
        Json::Object(
            seq![
                ("description"@, Json::Str(m.description)),
                ("type"@, Json::Str(m.kind)),
                ("period"@, Json::Str(m.period)),
                ("periodTime"@, Json::Str(m.period_time)),
                ("ordinalNum"@, Json::Str(m.ordinal_num)),
                ("teamId"@, Json::Str(m.team_id)),
                ("statsEventId"@, Json::Str(m.stats_event_id)),
                ("highlight"@, match m.highlight { Some(v) => GameContentMilestoneItemHighlight::encoded(v), None => Json::Null }),
            ],
        )
    }

    fn encode(&self) -> (r: JsonValue) {
        let mut members: Vec<(String, JsonValue)> = Vec::new();
        members.push((String::from_str("description"), JsonValue::Str(self.description.clone())));
        members.push((String::from_str("type"), JsonValue::Str(self.kind.clone())));
        members.push((String::from_str("period"), JsonValue::Str(self.period.clone())));
        members.push((String::from_str("periodTime"), JsonValue::Str(self.period_time.clone())));
        members.push((String::from_str("ordinalNum"), JsonValue::Str(self.ordinal_num.clone())));
        members.push((String::from_str("teamId"), JsonValue::Str(self.team_id.clone())));
        members.push((String::from_str("statsEventId"), JsonValue::Str(self.stats_event_id.clone())));
        members.push((String::from_str("highlight"), encode_record_option(&self.highlight)));
        let r = JsonValue::Object(members);
        proof {
            reveal_with_fuel(<JsonValue as View>::view, 2);
        }
        assert(r@->Object_0 =~= Self::encoded(self@)->Object_0);
        r
    }

    proof fn lemma_round_trip(m: GameContentMilestoneItemView) {
        reveal_strlit("description");
        reveal_strlit("type");
        reveal_strlit("period");
        reveal_strlit("periodTime");
        reveal_strlit("ordinalNum");
        reveal_strlit("teamId");
        reveal_strlit("statsEventId");
        reveal_strlit("highlight");
        assert("description"@.len() == 11);
        assert("type"@.len() == 4);
        assert("period"@.len() == 6);
        assert("periodTime"@.len() == 10);
        assert("ordinalNum"@.len() == 10);
        assert("teamId"@.len() == 6);
        assert("statsEventId"@.len() == 12);
        assert("highlight"@.len() == 9);
        assert("ordinalNum"@[0] == 'o');
        assert("periodTime"@[0] == 'p');
        assert("teamId"@[0] == 't');
        assert("period"@[0] == 'p');
        let members = Self::encoded(m)->Object_0;
        assert forall|a: int, b: int| 0 <= a < b < 8 implies members[a].0 != members[b].0 by {
            assert(a == 0 || a == 1 || a == 2 || a == 3 || a == 4 || a == 5 || a == 6);
            assert(b == 1 || b == 2 || b == 3 || b == 4 || b == 5 || b == 6 || b == 7);
        }
        lemma_lookup_distinct(members);
        if let Some(v) = m.highlight {
            GameContentMilestoneItemHighlight::lemma_round_trip(v);
        }
    }
}

/// The video highlight of a key moment.
#[derive(Clone, Debug, PartialEq)]
pub struct GameContentMilestoneItemHighlight {
    pub title: String,
    pub blurb: String,
    pub description: String,
    pub playbacks: Option<Vec<GameContentMilestoneItemHighlightPlayback>>,
}

/// The value of a [`GameContentMilestoneItemHighlight`].
pub struct GameContentMilestoneItemHighlightView {
    pub title: Seq<char>,
    pub blurb: Seq<char>,
    pub description: Seq<char>,
    pub playbacks: Option<Seq<GameContentMilestoneItemHighlightPlaybackView>>,
}

impl View for GameContentMilestoneItemHighlight {
    type V = GameContentMilestoneItemHighlightView;

    open spec fn view(&self) -> GameContentMilestoneItemHighlightView {
        GameContentMilestoneItemHighlightView {
            title: self.title@,
            blurb: self.blurb@,
            description: self.description@,
            playbacks: opt_views(self.playbacks),
        }
    }
}

impl Decode for GameContentMilestoneItemHighlight {
    open spec fn decoded(j: Json) -> Option<GameContentMilestoneItemHighlightView> {
        if j is Object && text_or_empty(member(j, "title"@)) is Some && text_or_empty(member(j, "blurb"@)) is Some && text_or_empty(member(j, "description"@)) is Some {
            Some(
                GameContentMilestoneItemHighlightView {
                    title: text_or_empty(member(j, "title"@))->0,
                    blurb: text_or_empty(member(j, "blurb"@))->0,
                    description: text_or_empty(member(j, "description"@))->0,
                    playbacks: list_of::<GameContentMilestoneItemHighlightPlayback>(member(j, "playbacks"@)),
                },
            )
        } else {
            None
        }
    }

    fn decode(j: &JsonValue) -> (r: Option<GameContentMilestoneItemHighlight>) {
        if !j.is_object() {
            return None;
        }
        let title = match text_or_default(j.member("title")) {
            Some(v) => v,
            None => {
                return None;
            },
        };
        let blurb = match text_or_default(j.member("blurb")) {
            Some(v) => v,
            None => {
                return None;
            },
        };
        let description = match text_or_default(j.member("description")) {
            Some(v) => v,
            None => {
                return None;
            },
        };
        let playbacks = read_list::<GameContentMilestoneItemHighlightPlayback>(j.member("playbacks"));
        Some(GameContentMilestoneItemHighlight {
            title,
            blurb,
            description,
            playbacks,
        })
    }
}

impl Encode for GameContentMilestoneItemHighlight {
    open spec fn encoded(m: GameContentMilestoneItemHighlightView) -> Json {
        Json::Object(
            seq![
                ("title"@, Json::Str(m.title)),
                ("blurb"@, Json::Str(m.blurb)),
                ("description"@, Json::Str(m.description)),
                ("playbacks"@, match m.playbacks { Some(s) => encoded_list::<GameContentMilestoneItemHighlightPlayback>(s), None => Json::Null }),
            ],
        )
    }

    fn encode(&self) -> (r: JsonValue) {
        let mut members: Vec<(String, JsonValue)> = Vec::new();
        members.push((String::from_str("title"), JsonValue::Str(self.title.clone())));
        members.push((String::from_str("blurb"), JsonValue::Str(self.blurb.clone())));
        members.push((String::from_str("description"), JsonValue::Str(self.description.clone())));
        members.push((String::from_str("playbacks"), encode_list_option(&self.playbacks)));
        let r = JsonValue::Object(members);
        proof {
            reveal_with_fuel(<JsonValue as View>::view, 2);
        }
        assert(r@->Object_0 =~= Self::encoded(self@)->Object_0);
        r
    }

    proof fn lemma_round_trip(m: GameContentMilestoneItemHighlightView) {
        reveal_strlit("title");
        reveal_strlit("blurb");
        reveal_strlit("description");
        reveal_strlit("playbacks");
        assert("title"@.len() == 5);
        assert("blurb"@.len() == 5);
        assert("description"@.len() == 11);
        assert("playbacks"@.len() == 9);
        assert("blurb"@[0] == 'b');
        assert("title"@[0] == 't');
        let members = Self::encoded(m)->Object_0;
        assert forall|a: int, b: int| 0 <= a < b < 4 implies members[a].0 != members[b].0 by {
            assert(a == 0 || a == 1 || a == 2);
            assert(b == 1 || b == 2 || b == 3);
        }
        lemma_lookup_distinct(members);
        if let Some(s) = m.playbacks {
            lemma_list_round_trip::<GameContentMilestoneItemHighlightPlayback>(s);
        }
    }
}

/// One playback of a highlight.
#[derive(Clone, Debug, PartialEq)]
pub struct GameContentMilestoneItemHighlightPlayback {
    pub name: String,
    pub url: String,
}

/// The value of a [`GameContentMilestoneItemHighlightPlayback`].
pub struct GameContentMilestoneItemHighlightPlaybackView {
    pub name: Seq<char>,
    pub url: Seq<char>,
}

impl View for GameContentMilestoneItemHighlightPlayback {
    type V = GameContentMilestoneItemHighlightPlaybackView;

    open spec fn view(&self) -> GameContentMilestoneItemHighlightPlaybackView {
        GameContentMilestoneItemHighlightPlaybackView {
            name: self.name@,
            url: self.url@,
        }
    }
}

impl Decode for GameContentMilestoneItemHighlightPlayback {
    open spec fn decoded(j: Json) -> Option<GameContentMilestoneItemHighlightPlaybackView> {
        if j is Object && text_or_empty(member(j, "name"@)) is Some && text_or_empty(member(j, "url"@)) is Some {
            Some(
                GameContentMilestoneItemHighlightPlaybackView {
                    name: text_or_empty(member(j, "name"@))->0,
                    url: text_or_empty(member(j, "url"@))->0,
                },
            )
        } else {
            None
        }
    }

    fn decode(j: &JsonValue) -> (r: Option<GameContentMilestoneItemHighlightPlayback>) {
        if !j.is_object() {
            return None;
        }
        let name = match text_or_default(j.member("name")) {
            Some(v) => v,
            None => {
                return None;
            },
        };
        let url = match text_or_default(j.member("url")) {
            Some(v) => v,
            None => {
                return None;
            },
        };
        Some(GameContentMilestoneItemHighlightPlayback {
            name,
            url,
        })
    }
}

impl Encode for GameContentMilestoneItemHighlightPlayback {
    open spec fn encoded(m: GameContentMilestoneItemHighlightPlaybackView) -> Json {
        Json::Object(
            seq![
                ("name"@, Json::Str(m.name)),
                ("url"@, Json::Str(m.url)),
            ],
        )
    }

    fn encode(&self) -> (r: JsonValue) {
        let mut members: Vec<(String, JsonValue)> = Vec::new();
        members.push((String::from_str("name"), JsonValue::Str(self.name.clone())));
        members.push((String::from_str("url"), JsonValue::Str(self.url.clone())));
        let r = JsonValue::Object(members);
        proof {
            reveal_with_fuel(<JsonValue as View>::view, 2);
        }
        assert(r@->Object_0 =~= Self::encoded(self@)->Object_0);
        r
    }

    proof fn lemma_round_trip(m: GameContentMilestoneItemHighlightPlaybackView) {
        reveal_strlit("name");
        reveal_strlit("url");
        assert("name"@.len() == 4);
        assert("url"@.len() == 3);
        let members = Self::encoded(m)->Object_0;
        assert forall|a: int, b: int| 0 <= a < b < 2 implies members[a].0 != members[b].0 by {
            assert(a == 0);
            assert(b == 1);
        }
        lemma_lookup_distinct(members);
    }
}

/// The line score of a game.
#[derive(Clone, Debug, PartialEq)]
pub struct GameLinescoreResponse {
    pub current_period: u8,
    /// Absent where upstream omits or garbles it.
    pub teams: Option<GameLinescoreTeams>,
}

/// The value of a [`GameLinescoreResponse`].
pub struct GameLinescoreResponseView {
    pub current_period: u8,
    pub teams: Option<GameLinescoreTeamsView>,
}

impl View for GameLinescoreResponse {
    type V = GameLinescoreResponseView;

    open spec fn view(&self) -> GameLinescoreResponseView {
        GameLinescoreResponseView {
            current_period: self.current_period,
            teams: opt_view(self.teams),
        }
    }
}

impl Decode for GameLinescoreResponse {
    open spec fn decoded(j: Json) -> Option<GameLinescoreResponseView> {
        if j is Object && u8_or_zero(member(j, "currentPeriod"@)) is Some {
            Some(
                GameLinescoreResponseView {
                    current_period: u8_or_zero(member(j, "currentPeriod"@))->0,
                    teams: record_of::<GameLinescoreTeams>(member(j, "teams"@)),
                },
            )
        } else {
            None
        }
    }

    fn decode(j: &JsonValue) -> (r: Option<GameLinescoreResponse>) {
        if !j.is_object() {
            return None;
        }
        let current_period = match u8_or_default(j.member("currentPeriod")) {
            Some(v) => v,
            None => {
                return None;
            },
        };
        let teams = read_record::<GameLinescoreTeams>(j.member("teams"));
        Some(GameLinescoreResponse {
            current_period,
            teams,
        })
    }
}

impl Encode for GameLinescoreResponse {
    open spec fn encoded(m: GameLinescoreResponseView) -> Json {
        Json::Object(
            seq![
                ("currentPeriod"@, Json::Number(Some(m.current_period as u64))),
                ("teams"@, match m.teams { Some(v) => GameLinescoreTeams::encoded(v), None => Json::Null }),
            ],
        )
    }

    fn encode(&self) -> (r: JsonValue) {
        let mut members: Vec<(String, JsonValue)> = Vec::new();
        members.push((String::from_str("currentPeriod"), JsonValue::Number(Some(self.current_period as u64))));
        members.push((String::from_str("teams"), encode_record_option(&self.teams)));
        let r = JsonValue::Object(members);
        proof {
            reveal_with_fuel(<JsonValue as View>::view, 2);
        }
        assert(r@->Object_0 =~= Self::encoded(self@)->Object_0);
        r
    }

    proof fn lemma_round_trip(m: GameLinescoreResponseView) {
        reveal_strlit("currentPeriod");
        reveal_strlit("teams");
        assert("currentPeriod"@.len() == 13);
        assert("teams"@.len() == 5);
        let members = Self::encoded(m)->Object_0;
        assert forall|a: int, b: int| 0 <= a < b < 2 implies members[a].0 != members[b].0 by {
            assert(a == 0);
            assert(b == 1);
        }
        lemma_lookup_distinct(members);
        if let Some(v) = m.teams {
            GameLinescoreTeams::lemma_round_trip(v);
        }
    }
}

/// Both sides of a line score.
#[derive(Clone, Debug, PartialEq)]
pub struct GameLinescoreTeams {
    pub home: GameLinescoreTeam,
    pub away: GameLinescoreTeam,
}

/// The value of a [`GameLinescoreTeams`].
pub struct GameLinescoreTeamsView {
    pub home: GameLinescoreTeamView,
    pub away: GameLinescoreTeamView,
}

impl View for GameLinescoreTeams {
    type V = GameLinescoreTeamsView;

    open spec fn view(&self) -> GameLinescoreTeamsView {
        GameLinescoreTeamsView {
            home: self.home@,
            away: self.away@,
        }
    }
}

impl Decode for GameLinescoreTeams {
    open spec fn decoded(j: Json) -> Option<GameLinescoreTeamsView> {
        if j is Object && record_of::<GameLinescoreTeam>(member(j, "home"@)) is Some && record_of::<GameLinescoreTeam>(member(j, "away"@)) is Some {
            Some(
                GameLinescoreTeamsView {
                    home: record_of::<GameLinescoreTeam>(member(j, "home"@))->0,
                    away: record_of::<GameLinescoreTeam>(member(j, "away"@))->0,
                },
            )
        } else {
            None
        }
    }

    fn decode(j: &JsonValue) -> (r: Option<GameLinescoreTeams>) {
        if !j.is_object() {
            return None;
        }
        let home = match read_record::<GameLinescoreTeam>(j.member("home")) {
            Some(v) => v,
            None => {
                return None;
            },
        };
        let away = match read_record::<GameLinescoreTeam>(j.member("away")) {
            Some(v) => v,
            None => {
                return None;
            },
        };
        Some(GameLinescoreTeams {
            home,
            away,
        })
    }
}

impl Encode for GameLinescoreTeams {
    open spec fn encoded(m: GameLinescoreTeamsView) -> Json {
        Json::Object(
            seq![
                ("home"@, GameLinescoreTeam::encoded(m.home)),
                ("away"@, GameLinescoreTeam::encoded(m.away)),
            ],
        )
    }

    fn encode(&self) -> (r: JsonValue) {
        let mut members: Vec<(String, JsonValue)> = Vec::new();
        members.push((String::from_str("home"), self.home.encode()));
        members.push((String::from_str("away"), self.away.encode()));
        let r = JsonValue::Object(members);
        proof {
            reveal_with_fuel(<JsonValue as View>::view, 2);
        }
        assert(r@->Object_0 =~= Self::encoded(self@)->Object_0);
        r
    }

    proof fn lemma_round_trip(m: GameLinescoreTeamsView) {
        reveal_strlit("home");
        reveal_strlit("away");
        assert("home"@.len() == 4);
        assert("away"@.len() == 4);
        assert("away"@[0] == 'a');
        assert("home"@[0] == 'h');
        let members = Self::encoded(m)->Object_0;
        assert forall|a: int, b: int| 0 <= a < b < 2 implies members[a].0 != members[b].0 by {
            assert(a == 0);
            assert(b == 1);
        }
        lemma_lookup_distinct(members);
        GameLinescoreTeam::lemma_round_trip(m.home);
        GameLinescoreTeam::lemma_round_trip(m.away);
    }
}

/// One side of a line score.
#[derive(Clone, Debug, PartialEq)]
pub struct GameLinescoreTeam {
    pub detail: GameLinescoreTeamDetail,
    pub goals: u8,
}

/// The value of a [`GameLinescoreTeam`].
pub struct GameLinescoreTeamView {
    pub detail: GameLinescoreTeamDetailView,
    pub goals: u8,
}

impl View for GameLinescoreTeam {
    type V = GameLinescoreTeamView;

    open spec fn view(&self) -> GameLinescoreTeamView {
        GameLinescoreTeamView {
            detail: self.detail@,
            goals: self.goals,
        }
    }
}

impl Decode for GameLinescoreTeam {
    open spec fn decoded(j: Json) -> Option<GameLinescoreTeamView> {
        if j is Object && record_of::<GameLinescoreTeamDetail>(member(j, "team"@)) is Some && u8_or_zero(member(j, "goals"@)) is Some {
            Some(
                GameLinescoreTeamView {
                    detail: record_of::<GameLinescoreTeamDetail>(member(j, "team"@))->0,
                    goals: u8_or_zero(member(j, "goals"@))->0,
                },
            )
        } else {
            None
        }
    }

    fn decode(j: &JsonValue) -> (r: Option<GameLinescoreTeam>) {
        if !j.is_object() {
            return None;
        }
        let detail = match read_record::<GameLinescoreTeamDetail>(j.member("team")) {
            Some(v) => v,
            None => {
                return None;
            },
        };
        let goals = match u8_or_default(j.member("goals")) {
            Some(v) => v,
            None => {
                return None;
            },
        };
        Some(GameLinescoreTeam {
            detail,
            goals,
        })
    }
}

impl Encode for GameLinescoreTeam {
    open spec fn encoded(m: GameLinescoreTeamView) -> Json {
        Json::Object(
            seq![
                ("team"@, GameLinescoreTeamDetail::encoded(m.detail)),
                ("goals"@, Json::Number(Some(m.goals as u64))),
            ],
        )
    }

    fn encode(&self) -> (r: JsonValue) {
        let mut members: Vec<(String, JsonValue)> = Vec::new();
        members.push((String::from_str("team"), self.detail.encode()));
        members.push((String::from_str("goals"), JsonValue::Number(Some(self.goals as u64))));
        let r = JsonValue::Object(members);
        proof {
            reveal_with_fuel(<JsonValue as View>::view, 2);
        }
        assert(r@->Object_0 =~= Self::encoded(self@)->Object_0);
        r
    }

    proof fn lemma_round_trip(m: GameLinescoreTeamView) {
        reveal_strlit("team");
        reveal_strlit("goals");
        assert("team"@.len() == 4);
        assert("goals"@.len() == 5);
        let members = Self::encoded(m)->Object_0;
        assert forall|a: int, b: int| 0 <= a < b < 2 implies members[a].0 != members[b].0 by {
            assert(a == 0);
            assert(b == 1);
        }
        lemma_lookup_distinct(members);
        GameLinescoreTeamDetail::lemma_round_trip(m.detail);
    }
}

/// The team of one side of a line score.
#[derive(Clone, Debug, PartialEq)]
pub struct GameLinescoreTeamDetail {
    pub id: u32,
    pub name: String,
    pub link: String,
}

/// The value of a [`GameLinescoreTeamDetail`].
pub struct GameLinescoreTeamDetailView {
    pub id: u32,
    pub name: Seq<char>,
    pub link: Seq<char>,
}

impl View for GameLinescoreTeamDetail {
    type V = GameLinescoreTeamDetailView;

    open spec fn view(&self) -> GameLinescoreTeamDetailView {
        GameLinescoreTeamDetailView {
            id: self.id,
            name: self.name@,
            link: self.link@,
        }
    }
}

impl Decode for GameLinescoreTeamDetail {
    open spec fn decoded(j: Json) -> Option<GameLinescoreTeamDetailView> {
        if j is Object && u32_or_zero(member(j, "id"@)) is Some && text_or_empty(member(j, "name"@)) is Some && text_or_empty(member(j, "link"@)) is Some {
            Some(
                GameLinescoreTeamDetailView {
                    id: u32_or_zero(member(j, "id"@))->0,
                    name: text_or_empty(member(j, "name"@))->0,
                    link: text_or_empty(member(j, "link"@))->0,
                },
            )
        } else {
            None
        }
    }

    fn decode(j: &JsonValue) -> (r: Option<GameLinescoreTeamDetail>) {
        if !j.is_object() {
            return None;
        }
        let id = match u32_or_default(j.member("id")) {
            Some(v) => v,
            None => {
                return None;
            },
        };
        let name = match text_or_default(j.member("name")) {
            Some(v) => v,
            None => {
                return None;
            },
        };
        let link = match text_or_default(j.member("link")) {
            Some(v) => v,
            None => {
                return None;
            },
        };
        Some(GameLinescoreTeamDetail {
            id,
            name,
            link,
        })
    }
}

impl Encode for GameLinescoreTeamDetail {
    open spec fn encoded(m: GameLinescoreTeamDetailView) -> Json {
        Json::Object(
            seq![
                ("id"@, Json::Number(Some(m.id as u64))),
                ("name"@, Json::Str(m.name)),
                ("link"@, Json::Str(m.link)),
            ],
        )
    }

    fn encode(&self) -> (r: JsonValue) {
        let mut members: Vec<(String, JsonValue)> = Vec::new();
        members.push((String::from_str("id"), JsonValue::Number(Some(self.id as u64))));
        members.push((String::from_str("name"), JsonValue::Str(self.name.clone())));
        members.push((String::from_str("link"), JsonValue::Str(self.link.clone())));
        let r = JsonValue::Object(members);
        proof {
            reveal_with_fuel(<JsonValue as View>::view, 2);
        }
        assert(r@->Object_0 =~= Self::encoded(self@)->Object_0);
        r
    }

    proof fn lemma_round_trip(m: GameLinescoreTeamDetailView) {
        reveal_strlit("id");
        reveal_strlit("name");
        reveal_strlit("link");
        assert("id"@.len() == 2);
        assert("name"@.len() == 4);
        assert("link"@.len() == 4);
        assert("link"@[0] == 'l');
        assert("name"@[0] == 'n');
        let members = Self::encoded(m)->Object_0;
        assert forall|a: int, b: int| 0 <= a < b < 3 implies members[a].0 != members[b].0 by {
            assert(a == 0 || a == 1);
            assert(b == 1 || b == 2);
        }
        lemma_lookup_distinct(members);
    }
}

/// The kinds of response that the service sends.
#[derive(Clone, Copy, Debug, PartialEq, Eq, Structural)]
pub enum ResponseType {
    TeamsResponse,
    ScheduleResponse,
    GameContentResponse,
    GameLinescoreResponse,
}

/// A decoded response, tagged with its kind.
#[derive(Clone, Debug)]
pub enum Response {
    TeamsResponse(TeamsResponse),
    ScheduleResponse(ScheduleResponse),
    GameContentResponse(GameContentResponse),
    GameLinescoreResponse(GameLinescoreResponse),
}

impl ResponseType {
    /// Decodes a body as the response of this kind.
    pub fn deserialize(&self, body: &[u8]) -> (r: Result<Response, ClientError>)
        ensures
            r is Err ==> r->Err_0 == ClientError::Decode,
            match *self {
                ResponseType::TeamsResponse => match decoded_body::<TeamsResponse>(body@) {
                    Some(m) => r matches Ok(Response::TeamsResponse(x)) && x@ == m,
                    None => r is Err,
                },
                ResponseType::ScheduleResponse => match decoded_body::<ScheduleResponse>(body@) {
                    Some(m) => r matches Ok(Response::ScheduleResponse(x)) && x@ == m,
                    None => r is Err,
                },
                ResponseType::GameContentResponse => match decoded_body::<GameContentResponse>(body@) {
                    Some(m) => r matches Ok(Response::GameContentResponse(x)) && x@ == m,
                    None => r is Err,
                },
                ResponseType::GameLinescoreResponse => match decoded_body::<GameLinescoreResponse>(body@) {
                    Some(m) => r matches Ok(Response::GameLinescoreResponse(x)) && x@ == m,
                    None => r is Err,
                },
            },
    {
        match self {
            ResponseType::TeamsResponse => match decode_body::<TeamsResponse>(body) {
                Ok(x) => Ok(Response::TeamsResponse(x)),
                Err(e) => Err(e),
            },
            ResponseType::ScheduleResponse => match decode_body::<ScheduleResponse>(body) {
                Ok(x) => Ok(Response::ScheduleResponse(x)),
                Err(e) => Err(e),
            },
            ResponseType::GameContentResponse => match decode_body::<GameContentResponse>(body) {
                Ok(x) => Ok(Response::GameContentResponse(x)),
                Err(e) => Err(e),
            },
            ResponseType::GameLinescoreResponse => match decode_body::<GameLinescoreResponse>(body) {
                Ok(x) => Ok(Response::GameLinescoreResponse(x)),
                Err(e) => Err(e),
            },
        }
    }
}

} // verus!
