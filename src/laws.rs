use vstd::prelude::*;
use crate::client::decoded_body;
use crate::decode::{
    bool_or_false, date_field, instant_field, list_of, list_or_empty, number_u32, number_u64,
    record_of, text_or_empty, u32_or_zero, Decode,
};
use crate::encode::Encode;
use crate::json::{document_of, member, Json};
use crate::model::{
    mlb, nhl, Schedule, ScheduleGame, ScheduleGameTeam, ScheduleGameTeamDetail, ScheduleGameTeams,
    ScheduleResponse,
};

verus! {

/// The defaulted fields of a hockey team are each absent or of their type.
pub open spec fn nhl_team_fields_typed(j: Json) -> bool {
    &&& text_or_empty(member(j, "name"@)) is Some
    &&& text_or_empty(member(j, "link"@)) is Some
    &&& text_or_empty(member(j, "abbreviation"@)) is Some
    &&& text_or_empty(member(j, "teamName"@)) is Some
    &&& text_or_empty(member(j, "locationName"@)) is Some
    &&& u32_or_zero(member(j, "franchiseId"@)) is Some
    &&& bool_or_false(member(j, "active"@)) is Some
}

/// The defaulted fields of a baseball team are each absent or of their type.
pub open spec fn mlb_team_fields_typed(j: Json) -> bool {
    &&& text_or_empty(member(j, "name"@)) is Some
    &&& text_or_empty(member(j, "link"@)) is Some
    &&& text_or_empty(member(j, "teamName"@)) is Some
    &&& bool_or_false(member(j, "active"@)) is Some
}

/// The defaulted fields of a scheduled game are each absent or of their type.
pub open spec fn schedule_game_fields_typed(j: Json) -> bool {
    &&& text_or_empty(member(j, "link"@)) is Some
    &&& text_or_empty(member(j, "gameType"@)) is Some
    &&& text_or_empty(member(j, "season"@)) is Some
}

/// A hockey team decodes from every object whose `id` is a 32-bit number and whose other
/// known fields are absent or of their type, and carries that number as its id.
pub proof fn law_nhl_team_required(j: Json)
    requires
        j is Object,
        number_u32(member(j, "id"@)) is Some,
        nhl_team_fields_typed(j),
    ensures
        nhl::Team::decoded(j) is Some,
        nhl::Team::decoded(j)->0.id == number_u32(member(j, "id"@))->0,
{
}

/// A baseball team decodes from every object whose `id` is a 32-bit number and whose
/// other known fields are absent or of their type, and carries that number as its id.
pub proof fn law_mlb_team_required(j: Json)
    requires
        j is Object,
        number_u32(member(j, "id"@)) is Some,
        mlb_team_fields_typed(j),
    ensures
        mlb::Team::decoded(j) is Some,
        mlb::Team::decoded(j)->0.id == number_u32(member(j, "id"@))->0,
{
}

/// A schedule decodes from every object whose `date` is a date and whose `games`, where
/// present, are games; it carries that date.
pub proof fn law_schedule_required(j: Json)
    requires
        j is Object,
        date_field(member(j, "date"@)) is Some,
        list_or_empty::<ScheduleGame>(member(j, "games"@)) is Some,
    ensures
        Schedule::decoded(j) is Some,
        Schedule::decoded(j)->0.date == date_field(member(j, "date"@))->0,
{
}

/// Every schedule that decodes carries a date of the calendar.
pub proof fn law_schedule_date_valid(j: Json)
    requires
        Schedule::decoded(j) is Some,
    ensures
        Schedule::decoded(j)->0.date.wf(),
{
}

/// A scheduled game decodes from every object with a `gamePk` number, a `gameDate`
/// instant, `teams` that decode, and other known fields absent or of their type; it
/// carries the first three as given.
pub proof fn law_schedule_game_required(j: Json)
    requires
        j is Object,
        schedule_game_fields_typed(j),
        number_u64(member(j, "gamePk"@)) is Some,
        instant_field(member(j, "gameDate"@)) is Some,
        record_of::<ScheduleGameTeams>(member(j, "teams"@)) is Some,
    ensures
        ScheduleGame::decoded(j) is Some,
        ScheduleGame::decoded(j)->0.game_pk == number_u64(member(j, "gamePk"@))->0,
        ScheduleGame::decoded(j)->0.date == instant_field(member(j, "gameDate"@))->0,
        ScheduleGame::decoded(j)->0.teams == record_of::<ScheduleGameTeams>(member(j, "teams"@))->0,
{
}

/// A hockey team without a 32-bit `id` does not decode: no id is made up for it.
pub proof fn law_nhl_team_without_id(j: Json)
    requires
        number_u32(member(j, "id"@)) is None,
    ensures
        nhl::Team::decoded(j) is None,
{
}

/// A baseball team without a 32-bit `id` does not decode: no id is made up for it.
pub proof fn law_mlb_team_without_id(j: Json)
    requires
        number_u32(member(j, "id"@)) is None,
    ensures
        mlb::Team::decoded(j) is None,
{
}

/// A schedule without a readable `date` does not decode.
pub proof fn law_schedule_without_date(j: Json)
    requires
        date_field(member(j, "date"@)) is None,
    ensures
        Schedule::decoded(j) is None,
{
}

/// A scheduled game without a `gamePk` number does not decode.
pub proof fn law_schedule_game_without_pk(j: Json)
    requires
        number_u64(member(j, "gamePk"@)) is None,
    ensures
        ScheduleGame::decoded(j) is None,
{
}

/// Two hockey line scores that differ only in `teams` decode alike: both or neither, with
/// the same period; `teams` is absent where it is missing or does not decode.
pub proof fn law_nhl_linescore_teams_isolated(a: Json, b: Json)
    requires
        a is Object,
        b is Object,
        forall|k: Seq<char>| k != "teams"@ ==> member(a, k) == member(b, k),
    ensures
        nhl::GameLinescoreResponse::decoded(a) is Some <==> nhl::GameLinescoreResponse::decoded(b) is Some,
        nhl::GameLinescoreResponse::decoded(a) is Some ==> nhl::GameLinescoreResponse::decoded(a)->0.current_period
            == nhl::GameLinescoreResponse::decoded(b)->0.current_period,
        nhl::GameLinescoreResponse::decoded(b) is Some && record_of::<nhl::GameLinescoreTeams>(member(b, "teams"@)) is None
            ==> nhl::GameLinescoreResponse::decoded(b)->0.teams is None,
{
    reveal_strlit("teams");
    reveal_strlit("currentPeriod");
    assert("currentPeriod"@.len() != "teams"@.len());
    assert(member(a, "currentPeriod"@) == member(b, "currentPeriod"@));
}

/// Two baseball line scores that differ only in `teams` decode alike: both or neither,
/// with the same inning; `teams` is absent where it is missing or does not decode.
pub proof fn law_mlb_linescore_teams_isolated(a: Json, b: Json)
    requires
        a is Object,
        b is Object,
        forall|k: Seq<char>| k != "teams"@ ==> member(a, k) == member(b, k),
    ensures
        mlb::GameLinescoreResponse::decoded(a) is Some <==> mlb::GameLinescoreResponse::decoded(b) is Some,
        mlb::GameLinescoreResponse::decoded(a) is Some ==> mlb::GameLinescoreResponse::decoded(a)->0.current_inning
            == mlb::GameLinescoreResponse::decoded(b)->0.current_inning,
        mlb::GameLinescoreResponse::decoded(b) is Some && record_of::<mlb::GameLinescoreTeams>(member(b, "teams"@)) is None
            ==> mlb::GameLinescoreResponse::decoded(b)->0.teams is None,
{
    reveal_strlit("teams");
    reveal_strlit("currentInning");
    assert("currentInning"@.len() != "teams"@.len());
    assert(member(a, "currentInning"@) == member(b, "currentInning"@));
}

/// Two baseball game contents that differ only in the `preview` of their `editorial`
/// decode alike: the same media, and a preview that is absent where it is missing or
/// does not decode.
pub proof fn law_mlb_preview_isolated(a: Json, b: Json, ea: Json, eb: Json)
    requires
        a is Object,
        b is Object,
        forall|k: Seq<char>| k != "editorial"@ ==> member(a, k) == member(b, k),
        member(a, "editorial"@) == Some(ea),
        member(b, "editorial"@) == Some(eb),
        ea is Object,
        eb is Object,
        forall|k: Seq<char>| k != "preview"@ ==> member(ea, k) == member(eb, k),
    ensures
        mlb::GameContentResponse::decoded(a) is Some,
        mlb::GameContentResponse::decoded(b) is Some,
        mlb::GameContentResponse::decoded(a)->0.media == mlb::GameContentResponse::decoded(b)->0.media,
        mlb::GameContentResponse::decoded(b)->0.editorial.preview == record_of::<crate::model::GameContentEditorialItem>(member(eb, "preview"@)),
{
    reveal_strlit("editorial");
    reveal_strlit("media");
    assert("editorial"@.len() != "media"@.len());
    assert(member(a, "media"@) == member(b, "media"@));
}

/// A hockey team body whose `teams` are objects with 32-bit ids, and other known fields
/// absent or of their type, decodes to as many teams,
/// in order, each with its id.
pub proof fn law_nhl_teams_body(body: Seq<u8>, j: Json, items: Seq<Json>)
    requires
        document_of(body) == Some(j),
        j is Object,
        member(j, "teams"@) == Some(Json::Array(items)),
        forall|i: int|
            0 <= i < items.len() ==> (#[trigger] items[i]) is Object && number_u32(member(items[i], "id"@))
                is Some && nhl_team_fields_typed(items[i]),
    ensures
        decoded_body::<nhl::TeamsResponse>(body) is Some,
        decoded_body::<nhl::TeamsResponse>(body)->0.teams.len() == items.len(),
        forall|i: int|
            0 <= i < items.len() ==> (#[trigger] decoded_body::<nhl::TeamsResponse>(body)->0.teams[i])
                == nhl::Team::decoded(items[i])->0 && decoded_body::<nhl::TeamsResponse>(body)->0.teams[i].id
                == number_u32(member(items[i], "id"@))->0,
{
    assert forall|i: int| 0 <= i < items.len() implies (#[trigger] nhl::Team::decoded(items[i])) is Some by {
        law_nhl_team_required(items[i]);
    }
}

/// A baseball team body whose `teams` are objects with 32-bit ids, and other known fields
/// absent or of their type, decodes to as many
/// teams, in order, each with its id.
pub proof fn law_mlb_teams_body(body: Seq<u8>, j: Json, items: Seq<Json>)
    requires
        document_of(body) == Some(j),
        j is Object,
        member(j, "teams"@) == Some(Json::Array(items)),
        forall|i: int|
            0 <= i < items.len() ==> (#[trigger] items[i]) is Object && number_u32(member(items[i], "id"@))
                is Some && mlb_team_fields_typed(items[i]),
    ensures
        decoded_body::<mlb::TeamsResponse>(body) is Some,
        decoded_body::<mlb::TeamsResponse>(body)->0.teams.len() == items.len(),
        forall|i: int|
            0 <= i < items.len() ==> (#[trigger] decoded_body::<mlb::TeamsResponse>(body)->0.teams[i])
                == mlb::Team::decoded(items[i])->0 && decoded_body::<mlb::TeamsResponse>(body)->0.teams[i].id
                == number_u32(member(items[i], "id"@))->0,
{
    assert forall|i: int| 0 <= i < items.len() implies (#[trigger] mlb::Team::decoded(items[i])) is Some by {
        law_mlb_team_required(items[i]);
    }
}

/// A schedule body whose `dates` all decode gives as many schedules, in order, each with
/// the date it was given.
pub proof fn law_schedule_body(body: Seq<u8>, j: Json, dates: Seq<Json>)
    requires
        document_of(body) == Some(j),
        j is Object,
        member(j, "dates"@) == Some(Json::Array(dates)),
        forall|i: int| 0 <= i < dates.len() ==> (#[trigger] Schedule::decoded(dates[i])) is Some,
    ensures
        decoded_body::<ScheduleResponse>(body) is Some,
        decoded_body::<ScheduleResponse>(body)->0.dates.len() == dates.len(),
        forall|i: int|
            0 <= i < dates.len() ==> (#[trigger] decoded_body::<ScheduleResponse>(body)->0.dates[i])
                == Schedule::decoded(dates[i])->0 && decoded_body::<ScheduleResponse>(body)->0.dates[i].date
                == date_field(member(dates[i], "date"@))->0,
{
}

/// A schedule body with a date that does not decode (no `date`, or a game without
/// `gamePk`, `gameDate` or `teams`) is a decode failure, not a schedule with a made-up
/// value.
pub proof fn law_schedule_body_with_broken_date(body: Seq<u8>, j: Json, dates: Seq<Json>, k: int)
    requires
        document_of(body) == Some(j),
        member(j, "dates"@) == Some(Json::Array(dates)),
        0 <= k < dates.len(),
        Schedule::decoded(dates[k]) is None,
    ensures
        decoded_body::<ScheduleResponse>(body) is None,
{
    reveal_strlit("dates");
    assert(member(j, "dates"@) != Some(Json::Null));
}

/// A schedule with a game that does not decode does not decode.
pub proof fn law_schedule_with_broken_game(j: Json, games: Seq<Json>, k: int)
    requires
        member(j, "games"@) == Some(Json::Array(games)),
        0 <= k < games.len(),
        ScheduleGame::decoded(games[k]) is None,
    ensures
        Schedule::decoded(j) is None,
{
}

/// A game side whose `team` has no 32-bit `id` does not decode, and neither does its
/// game.
pub proof fn law_schedule_team_without_id(side: Json, team: Json)
    requires
        member(side, "team"@) == Some(team),
        number_u32(member(team, "id"@)) is None,
    ensures
        ScheduleGameTeamDetail::decoded(team) is None,
        ScheduleGameTeam::decoded(side) is None,
{
}

/// Two hockey game contents whose editorials differ only in `preview` decode alike: the
/// same media, and a preview that is absent where it is missing or does not decode.
pub proof fn law_nhl_preview_isolated(a: Json, b: Json, ea: Json, eb: Json)
    requires
        a is Object,
        b is Object,
        forall|k: Seq<char>| k != "editorial"@ ==> member(a, k) == member(b, k),
        member(a, "editorial"@) == Some(ea),
        member(b, "editorial"@) == Some(eb),
        ea is Object,
        eb is Object,
        forall|k: Seq<char>| k != "preview"@ ==> member(ea, k) == member(eb, k),
    ensures
        nhl::GameContentResponse::decoded(a) is Some,
        nhl::GameContentResponse::decoded(b) is Some,
        nhl::GameContentResponse::decoded(a)->0.media == nhl::GameContentResponse::decoded(b)->0.media,
        nhl::GameContentResponse::decoded(b)->0.editorial.preview == record_of::<crate::model::GameContentEditorialItem>(member(eb, "preview"@)),
{
    reveal_strlit("editorial");
    reveal_strlit("media");
    assert("editorial"@.len() != "media"@.len());
    assert(member(a, "media"@) == member(b, "media"@));
}

/// Two hockey key moments that differ only in `highlight` decode alike but for it (both
/// or neither); the highlight is absent where it is missing or does not decode.
pub proof fn law_nhl_highlight_isolated(a: Json, b: Json)
    requires
        a is Object,
        b is Object,
        forall|k: Seq<char>| k != "highlight"@ ==> member(a, k) == member(b, k),
    ensures
        nhl::GameContentMilestoneItem::decoded(a) is Some <==> nhl::GameContentMilestoneItem::decoded(
            b,
        ) is Some,
        nhl::GameContentMilestoneItem::decoded(a) is Some ==> ({
            let x = nhl::GameContentMilestoneItem::decoded(a)->0;
            let y = nhl::GameContentMilestoneItem::decoded(b)->0;
            &&& x.description == y.description
            &&& x.kind == y.kind
            &&& x.period == y.period
            &&& x.period_time == y.period_time
            &&& x.ordinal_num == y.ordinal_num
            &&& x.team_id == y.team_id
            &&& x.stats_event_id == y.stats_event_id
            &&& y.highlight == record_of::<nhl::GameContentMilestoneItemHighlight>(member(b, "highlight"@))
        }),
{
    reveal_strlit("highlight");
    reveal_strlit("description");
    reveal_strlit("type");
    reveal_strlit("period");
    reveal_strlit("periodTime");
    reveal_strlit("ordinalNum");
    reveal_strlit("teamId");
    reveal_strlit("statsEventId");
    assert("highlight"@.len() == 9);
    assert("description"@.len() != 9);
    assert("type"@.len() != 9);
    assert("period"@.len() != 9);
    assert("periodTime"@.len() != 9);
    assert("ordinalNum"@.len() != 9);
    assert("teamId"@.len() != 9);
    assert("statsEventId"@.len() != 9);
    assert(member(a, "description"@) == member(b, "description"@));
    assert(member(a, "type"@) == member(b, "type"@));
    assert(member(a, "period"@) == member(b, "period"@));
    assert(member(a, "periodTime"@) == member(b, "periodTime"@));
    assert(member(a, "ordinalNum"@) == member(b, "ordinalNum"@));
    assert(member(a, "teamId"@) == member(b, "teamId"@));
    assert(member(a, "statsEventId"@) == member(b, "statsEventId"@));
}

/// Two hockey broadcast guide entries that differ only in `items` decode alike (both or
/// neither) with the same title; the items are absent where they are missing or do not
/// decode.
pub proof fn law_nhl_epg_items_isolated(a: Json, b: Json)
    requires
        a is Object,
        b is Object,
        forall|k: Seq<char>| k != "items"@ ==> member(a, k) == member(b, k),
    ensures
        nhl::GameContentEpg::decoded(a) is Some <==> nhl::GameContentEpg::decoded(b) is Some,
        nhl::GameContentEpg::decoded(a) is Some ==> nhl::GameContentEpg::decoded(a)->0.title
            == nhl::GameContentEpg::decoded(b)->0.title && nhl::GameContentEpg::decoded(b)->0.items == list_of::<nhl::GameContentEpgItem>(member(b, "items"@)),
{
    reveal_strlit("items");
    reveal_strlit("title");
    assert("items"@.len() == "title"@.len());
    assert("items"@[0] != "title"@[0]);
    assert(member(a, "title"@) == member(b, "title"@));
}

/// Decoding what `encode` writes gives the record back.
pub proof fn law_round_trip<T: Encode>(x: &T)
    ensures
        T::decoded(T::encoded(x@)) == Some(x@),
{
    T::lemma_round_trip(x@);
}

} // verus!
