//! The rows of the starter assets of a new account, read from their JSON
//! text: the tower, weekly-walk (both versions) and summon assets. Each
//! asset has a shape (`asset::Shape`) that names every field the account's
//! rows take, with its default; the readers read exactly that.
use vstd::prelude::*;
use crate::asset::{read_rows, rows_of, Rows, Shape};
use crate::json::{parse_json, parsed_json, Json};

verus! {

/// The fields of a shape are these, in this order.
pub open spec fn fields_are(
    s: Shape,
    ints: Seq<(&'static str, i64)>,
    flags: Seq<(&'static str, bool)>,
    texts: Seq<&'static str>,
    id_lists: Seq<&'static str>,
    text_lists: Seq<&'static str>,
) -> bool {
    &&& s.ints@ =~= ints
    &&& s.flags@ =~= flags
    &&& s.texts@ =~= texts
    &&& s.id_lists@ =~= id_lists
    &&& s.text_lists@ =~= text_lists
}

/// Part `j` of a shape is the one under `key` (an array, or with `single`
/// one object).
pub open spec fn part_is(s: Shape, j: int, key: &'static str, single: bool) -> bool {
    s.parts@[j].0 == key && s.parts@[j].1 == single
}

/// The rows that a text gives under a shape: `None` where the text is no
/// JSON, else what the shape reads from the parsed value.
pub fn rows_from_text(text: &str, s: &Shape) -> (r: Option<Rows>)
    ensures
        match parsed_json(text@) {
            Some(d) => r matches Some(x) && rows_of(x, d, *s),
            None => r is None,
        },
{
    match parse_json(text) {
        Some(d) => Some(read_rows(&d, s)),
        None => None,
    }
}
/// A tower that is open: what its rows take.
pub open spec fn is_tower_open_shape(s: Shape) -> bool {
    &&& fields_are(s, seq![("type", 0i64), ("towerId", 0i64), ("status", 0i64), ("round", 0i64), ("nextTime", 0i64), ("towerStartTime", 0i64), ("taskEndTime", 0i64)], Seq::empty(), Seq::empty(), Seq::empty(), Seq::empty())
    &&& s.parts@.len() == 0
}

pub fn tower_open_shape() -> (s: Shape)
    ensures
        is_tower_open_shape(s),
{
    let mut parts: Vec<(&'static str, bool, Shape)> = Vec::new();
    Shape {
        ints: vec![("type", 0i64), ("towerId", 0i64), ("status", 0i64), ("round", 0i64), ("nextTime", 0i64), ("towerStartTime", 0i64), ("taskEndTime", 0i64)],
        flags: Vec::new(),
        texts: Vec::new(),
        id_lists: Vec::new(),
        text_lists: Vec::new(),
        parts,
    }
}

/// A hero of a tower episode: what its rows take.
pub open spec fn is_tower_hero_shape(s: Shape) -> bool {
    &&& fields_are(s, seq![("heroId", 0i64), ("trialId", 0i64)], Seq::empty(), Seq::empty(), Seq::empty(), Seq::empty())
    &&& s.parts@.len() == 0
}

pub fn tower_hero_shape() -> (s: Shape)
    ensures
        is_tower_hero_shape(s),
{
    let mut parts: Vec<(&'static str, bool, Shape)> = Vec::new();
    Shape {
        ints: vec![("heroId", 0i64), ("trialId", 0i64)],
        flags: Vec::new(),
        texts: Vec::new(),
        id_lists: Vec::new(),
        text_lists: Vec::new(),
        parts,
    }
}

/// An episode of a tower layer: what its rows take.
pub open spec fn is_tower_episode_shape(s: Shape) -> bool {
    &&& fields_are(s, seq![("episodeId", 0i64), ("status", 0i64), ("assistBossId", 0i64)], Seq::empty(), Seq::empty(), Seq::empty(), Seq::empty())
    &&& s.parts@.len() == 1
    &&& part_is(s, 0, "heros", false)
    &&& is_tower_hero_shape(s.parts@[0].2)
}

pub fn tower_episode_shape() -> (s: Shape)
    ensures
        is_tower_episode_shape(s),
{
    let mut parts: Vec<(&'static str, bool, Shape)> = Vec::new();
    parts.push(("heros", false, tower_hero_shape()));
    Shape {
        ints: vec![("episodeId", 0i64), ("status", 0i64), ("assistBossId", 0i64)],
        flags: Vec::new(),
        texts: Vec::new(),
        id_lists: Vec::new(),
        text_lists: Vec::new(),
        parts,
    }
}

/// A layer of a tower: what its rows take.
pub open spec fn is_tower_layer_shape(s: Shape) -> bool {
    &&& fields_are(s, seq![("layerId", 0i64), ("currHighScore", 0i64), ("historyHighScore", 0i64)], Seq::empty(), Seq::empty(), Seq::empty(), Seq::empty())
    &&& s.parts@.len() == 1
    &&& part_is(s, 0, "episodeNOs", false)
    &&& is_tower_episode_shape(s.parts@[0].2)
}

pub fn tower_layer_shape() -> (s: Shape)
    ensures
        is_tower_layer_shape(s),
{
    let mut parts: Vec<(&'static str, bool, Shape)> = Vec::new();
    parts.push(("episodeNOs", false, tower_episode_shape()));
    Shape {
        ints: vec![("layerId", 0i64), ("currHighScore", 0i64), ("historyHighScore", 0i64)],
        flags: Vec::new(),
        texts: Vec::new(),
        id_lists: Vec::new(),
        text_lists: Vec::new(),
        parts,
    }
}

/// A tower: what its rows take.
pub open spec fn is_tower_shape(s: Shape) -> bool {
    &&& fields_are(s, seq![("type", 0i64), ("towerId", 0i64), ("passLayerId", 0i64), ("historyHighScore", 0i64)], Seq::empty(), seq!["params"], seq!["openSpLayerIds", "passTeachIds"], Seq::empty())
    &&& s.parts@.len() == 1
    &&& part_is(s, 0, "layerNOs", false)
    &&& is_tower_layer_shape(s.parts@[0].2)
}

pub fn tower_shape() -> (s: Shape)
    ensures
        is_tower_shape(s),
{
    let mut parts: Vec<(&'static str, bool, Shape)> = Vec::new();
    parts.push(("layerNOs", false, tower_layer_shape()));
    Shape {
        ints: vec![("type", 0i64), ("towerId", 0i64), ("passLayerId", 0i64), ("historyHighScore", 0i64)],
        flags: Vec::new(),
        texts: vec!["params"],
        id_lists: vec!["openSpLayerIds", "passTeachIds"],
        text_lists: Vec::new(),
        parts,
    }
}

/// A talent plan of an assist boss: what its rows take.
pub open spec fn is_talent_plan_shape(s: Shape) -> bool {
    &&& fields_are(s, seq![("planId", 0i64), ("talentPoint", 0i64)], Seq::empty(), seq!["planName"], seq!["talentIds"], Seq::empty())
    &&& s.parts@.len() == 0
}

pub fn talent_plan_shape() -> (s: Shape)
    ensures
        is_talent_plan_shape(s),
{
    let mut parts: Vec<(&'static str, bool, Shape)> = Vec::new();
    Shape {
        ints: vec![("planId", 0i64), ("talentPoint", 0i64)],
        flags: Vec::new(),
        texts: vec!["planName"],
        id_lists: vec!["talentIds"],
        text_lists: Vec::new(),
        parts,
    }
}

/// An assist boss (level 1 where missing): what its rows take.
pub open spec fn is_assist_boss_shape(s: Shape) -> bool {
    &&& fields_are(s, seq![("id", 0i64), ("level", 1i64), ("useTalentPlan", 0i64)], Seq::empty(), Seq::empty(), Seq::empty(), Seq::empty())
    &&& s.parts@.len() == 1
    &&& part_is(s, 0, "talentPlans", false)
    &&& is_talent_plan_shape(s.parts@[0].2)
}

pub fn assist_boss_shape() -> (s: Shape)
    ensures
        is_assist_boss_shape(s),
{
    let mut parts: Vec<(&'static str, bool, Shape)> = Vec::new();
    parts.push(("talentPlans", false, talent_plan_shape()));
    Shape {
        ints: vec![("id", 0i64), ("level", 1i64), ("useTalentPlan", 0i64)],
        flags: Vec::new(),
        texts: Vec::new(),
        id_lists: Vec::new(),
        text_lists: Vec::new(),
        parts,
    }
}

/// The tower asset: what its rows take.
pub open spec fn is_tower_info_shape(s: Shape) -> bool {
    &&& fields_are(s, seq![("mopUpTimes", 0i64), ("trialHeroSeason", 0i64)], Seq::empty(), Seq::empty(), Seq::empty(), Seq::empty())
    &&& s.parts@.len() == 3
    &&& part_is(s, 0, "towerOpens", false)
    &&& is_tower_open_shape(s.parts@[0].2)
    &&& part_is(s, 1, "towers", false)
    &&& is_tower_shape(s.parts@[1].2)
    &&& part_is(s, 2, "assistBosses", false)
    &&& is_assist_boss_shape(s.parts@[2].2)
}

pub fn tower_info_shape() -> (s: Shape)
    ensures
        is_tower_info_shape(s),
{
    let mut parts: Vec<(&'static str, bool, Shape)> = Vec::new();
    parts.push(("towerOpens", false, tower_open_shape()));
    parts.push(("towers", false, tower_shape()));
    parts.push(("assistBosses", false, assist_boss_shape()));
    Shape {
        ints: vec![("mopUpTimes", 0i64), ("trialHeroSeason", 0i64)],
        flags: Vec::new(),
        texts: Vec::new(),
        id_lists: Vec::new(),
        text_lists: Vec::new(),
        parts,
    }
}

/// A battle of a weekly-walk map: what its rows take.
pub open spec fn is_weekwalk_battle_shape(s: Shape) -> bool {
    &&& fields_are(s, seq![("battleId", 0i64), ("star", 0i64), ("maxStar", 0i64), ("heroGroupSelect", 0i64), ("elementId", 0i64)], Seq::empty(), Seq::empty(), seq!["heroIds"], Seq::empty())
    &&& s.parts@.len() == 0
}

pub fn weekwalk_battle_shape() -> (s: Shape)
    ensures
        is_weekwalk_battle_shape(s),
{
    let mut parts: Vec<(&'static str, bool, Shape)> = Vec::new();
    Shape {
        ints: vec![("battleId", 0i64), ("star", 0i64), ("maxStar", 0i64), ("heroGroupSelect", 0i64), ("elementId", 0i64)],
        flags: Vec::new(),
        texts: Vec::new(),
        id_lists: vec!["heroIds"],
        text_lists: Vec::new(),
        parts,
    }
}

/// An element of a weekly-walk map: what its rows take.
pub open spec fn is_weekwalk_element_shape(s: Shape) -> bool {
    &&& fields_are(s, seq![("elementId", 0i64), ("index", 0i64)], seq![("isFinish", false), ("visible", false)], Seq::empty(), Seq::empty(), seq!["historylist"])
    &&& s.parts@.len() == 0
}

pub fn weekwalk_element_shape() -> (s: Shape)
    ensures
        is_weekwalk_element_shape(s),
{
    let mut parts: Vec<(&'static str, bool, Shape)> = Vec::new();
    Shape {
        ints: vec![("elementId", 0i64), ("index", 0i64)],
        flags: vec![("isFinish", false), ("visible", false)],
        texts: Vec::new(),
        id_lists: Vec::new(),
        text_lists: vec!["historylist"],
        parts,
    }
}

/// A hero of a weekly-walk map: what its rows take.
pub open spec fn is_weekwalk_hero_shape(s: Shape) -> bool {
    &&& fields_are(s, seq![("heroId", 0i64), ("cd", 0i64)], Seq::empty(), Seq::empty(), Seq::empty(), Seq::empty())
    &&& s.parts@.len() == 0
}

pub fn weekwalk_hero_shape() -> (s: Shape)
    ensures
        is_weekwalk_hero_shape(s),
{
    let mut parts: Vec<(&'static str, bool, Shape)> = Vec::new();
    Shape {
        ints: vec![("heroId", 0i64), ("cd", 0i64)],
        flags: Vec::new(),
        texts: Vec::new(),
        id_lists: Vec::new(),
        text_lists: Vec::new(),
        parts,
    }
}

/// A weekly-walk map: what its rows take.
pub open spec fn is_weekwalk_map_shape(s: Shape) -> bool {
    &&& fields_are(s, seq![("id", 0i64), ("sceneId", 0i64), ("isFinish", 0i64), ("isFinished", 0i64), ("buffId", 0i64)], seq![("isShowBuff", false), ("isShowFinished", false), ("isShowSelectCd", false)], Seq::empty(), seq!["storyIds"], Seq::empty())
    &&& s.parts@.len() == 3
    &&& part_is(s, 0, "battleInfos", false)
    &&& is_weekwalk_battle_shape(s.parts@[0].2)
    &&& part_is(s, 1, "elementInfos", false)
    &&& is_weekwalk_element_shape(s.parts@[1].2)
    &&& part_is(s, 2, "heroInfos", false)
    &&& is_weekwalk_hero_shape(s.parts@[2].2)
}

pub fn weekwalk_map_shape() -> (s: Shape)
    ensures
        is_weekwalk_map_shape(s),
{
    let mut parts: Vec<(&'static str, bool, Shape)> = Vec::new();
    parts.push(("battleInfos", false, weekwalk_battle_shape()));
    parts.push(("elementInfos", false, weekwalk_element_shape()));
    parts.push(("heroInfos", false, weekwalk_hero_shape()));
    Shape {
        ints: vec![("id", 0i64), ("sceneId", 0i64), ("isFinish", 0i64), ("isFinished", 0i64), ("buffId", 0i64)],
        flags: vec![("isShowBuff", false), ("isShowFinished", false), ("isShowSelectCd", false)],
        texts: Vec::new(),
        id_lists: vec!["storyIds"],
        text_lists: Vec::new(),
        parts,
    }
}

/// The weekly-walk state under `info`: what its rows take.
pub open spec fn is_weekwalk_state_shape(s: Shape) -> bool {
    &&& fields_are(s, seq![("time", 0i64), ("endTime", 0i64), ("maxLayer", 0i64), ("issueId", 0i64)], seq![("isPopDeepRule", false), ("isOpenDeep", false), ("isPopShallowSettle", false), ("isPopDeepSettle", false)], seq!["deepProgress"], Seq::empty(), Seq::empty())
    &&& s.parts@.len() == 1
    &&& part_is(s, 0, "mapInfo", false)
    &&& is_weekwalk_map_shape(s.parts@[0].2)
}

pub fn weekwalk_state_shape() -> (s: Shape)
    ensures
        is_weekwalk_state_shape(s),
{
    let mut parts: Vec<(&'static str, bool, Shape)> = Vec::new();
    parts.push(("mapInfo", false, weekwalk_map_shape()));
    Shape {
        ints: vec![("time", 0i64), ("endTime", 0i64), ("maxLayer", 0i64), ("issueId", 0i64)],
        flags: vec![("isPopDeepRule", false), ("isOpenDeep", false), ("isPopShallowSettle", false), ("isPopDeepSettle", false)],
        texts: vec!["deepProgress"],
        id_lists: Vec::new(),
        text_lists: Vec::new(),
        parts,
    }
}

/// The weekly-walk asset: what its rows take.
pub open spec fn is_weekwalk_info_shape(s: Shape) -> bool {
    &&& fields_are(s, seq![("timeThisWeek", 0i64)], Seq::empty(), Seq::empty(), Seq::empty(), Seq::empty())
    &&& s.parts@.len() == 1
    &&& part_is(s, 0, "info", true)
    &&& is_weekwalk_state_shape(s.parts@[0].2)
}

pub fn weekwalk_info_shape() -> (s: Shape)
    ensures
        is_weekwalk_info_shape(s),
{
    let mut parts: Vec<(&'static str, bool, Shape)> = Vec::new();
    parts.push(("info", true, weekwalk_state_shape()));
    Shape {
        ints: vec![("timeThisWeek", 0i64)],
        flags: Vec::new(),
        texts: Vec::new(),
        id_lists: Vec::new(),
        text_lists: Vec::new(),
        parts,
    }
}

/// A cup of a battle: what its rows take.
pub open spec fn is_weekwalk2_cup_shape(s: Shape) -> bool {
    &&& fields_are(s, seq![("id", 0i64), ("result", 0i64)], Seq::empty(), Seq::empty(), Seq::empty(), Seq::empty())
    &&& s.parts@.len() == 0
}

pub fn weekwalk2_cup_shape() -> (s: Shape)
    ensures
        is_weekwalk2_cup_shape(s),
{
    let mut parts: Vec<(&'static str, bool, Shape)> = Vec::new();
    Shape {
        ints: vec![("id", 0i64), ("result", 0i64)],
        flags: Vec::new(),
        texts: Vec::new(),
        id_lists: Vec::new(),
        text_lists: Vec::new(),
        parts,
    }
}

/// A battle of a layer: what its rows take.
pub open spec fn is_weekwalk2_battle_shape(s: Shape) -> bool {
    &&& fields_are(s, seq![("battleId", 0i64), ("status", 0i64), ("heroGroupSelect", 0i64), ("elementId", 0i64)], Seq::empty(), seq!["params"], seq!["heroIds", "chooseSkillIds"], Seq::empty())
    &&& s.parts@.len() == 1
    &&& part_is(s, 0, "cupInfos", false)
    &&& is_weekwalk2_cup_shape(s.parts@[0].2)
}

pub fn weekwalk2_battle_shape() -> (s: Shape)
    ensures
        is_weekwalk2_battle_shape(s),
{
    let mut parts: Vec<(&'static str, bool, Shape)> = Vec::new();
    parts.push(("cupInfos", false, weekwalk2_cup_shape()));
    Shape {
        ints: vec![("battleId", 0i64), ("status", 0i64), ("heroGroupSelect", 0i64), ("elementId", 0i64)],
        flags: Vec::new(),
        texts: vec!["params"],
        id_lists: vec!["heroIds", "chooseSkillIds"],
        text_lists: Vec::new(),
        parts,
    }
}

/// An element of a layer: what its rows take.
pub open spec fn is_weekwalk2_element_shape(s: Shape) -> bool {
    &&& fields_are(s, seq![("elementId", 0i64), ("index", 0i64)], seq![("finish", false), ("visible", false)], Seq::empty(), Seq::empty(), Seq::empty())
    &&& s.parts@.len() == 0
}

pub fn weekwalk2_element_shape() -> (s: Shape)
    ensures
        is_weekwalk2_element_shape(s),
{
    let mut parts: Vec<(&'static str, bool, Shape)> = Vec::new();
    Shape {
        ints: vec![("elementId", 0i64), ("index", 0i64)],
        flags: vec![("finish", false), ("visible", false)],
        texts: Vec::new(),
        id_lists: Vec::new(),
        text_lists: Vec::new(),
        parts,
    }
}

/// A layer: what its rows take.
pub open spec fn is_weekwalk2_layer_shape(s: Shape) -> bool {
    &&& fields_are(s, seq![("id", 0i64), ("sceneId", 0i64)], seq![("allPass", false), ("finished", false), ("unlock", false), ("showFinished", false)], seq!["params"], Seq::empty(), Seq::empty())
    &&& s.parts@.len() == 2
    &&& part_is(s, 0, "battleInfos", false)
    &&& is_weekwalk2_battle_shape(s.parts@[0].2)
    &&& part_is(s, 1, "elementInfos", false)
    &&& is_weekwalk2_element_shape(s.parts@[1].2)
}

pub fn weekwalk2_layer_shape() -> (s: Shape)
    ensures
        is_weekwalk2_layer_shape(s),
{
    let mut parts: Vec<(&'static str, bool, Shape)> = Vec::new();
    parts.push(("battleInfos", false, weekwalk2_battle_shape()));
    parts.push(("elementInfos", false, weekwalk2_element_shape()));
    Shape {
        ints: vec![("id", 0i64), ("sceneId", 0i64)],
        flags: vec![("allPass", false), ("finished", false), ("unlock", false), ("showFinished", false)],
        texts: vec!["params"],
        id_lists: Vec::new(),
        text_lists: Vec::new(),
        parts,
    }
}

/// A layer of the previous settlement: what its rows take.
pub open spec fn is_weekwalk2_settle_layer_shape(s: Shape) -> bool {
    &&& fields_are(s, seq![("layerId", 0i64), ("platinumCupNum", 0i64)], Seq::empty(), Seq::empty(), Seq::empty(), Seq::empty())
    &&& s.parts@.len() == 0
}

pub fn weekwalk2_settle_layer_shape() -> (s: Shape)
    ensures
        is_weekwalk2_settle_layer_shape(s),
{
    let mut parts: Vec<(&'static str, bool, Shape)> = Vec::new();
    Shape {
        ints: vec![("layerId", 0i64), ("platinumCupNum", 0i64)],
        flags: Vec::new(),
        texts: Vec::new(),
        id_lists: Vec::new(),
        text_lists: Vec::new(),
        parts,
    }
}

/// The previous settlement: what its rows take.
pub open spec fn is_weekwalk2_settle_shape(s: Shape) -> bool {
    &&& fields_are(s, seq![("maxLayerId", 0i64), ("maxBattleId", 0i64), ("maxBattleIndex", 0i64)], seq![("show", false)], Seq::empty(), Seq::empty(), Seq::empty())
    &&& s.parts@.len() == 1
    &&& part_is(s, 0, "layerInfos", false)
    &&& is_weekwalk2_settle_layer_shape(s.parts@[0].2)
}

pub fn weekwalk2_settle_shape() -> (s: Shape)
    ensures
        is_weekwalk2_settle_shape(s),
{
    let mut parts: Vec<(&'static str, bool, Shape)> = Vec::new();
    parts.push(("layerInfos", false, weekwalk2_settle_layer_shape()));
    Shape {
        ints: vec![("maxLayerId", 0i64), ("maxBattleId", 0i64), ("maxBattleIndex", 0i64)],
        flags: vec![("show", false)],
        texts: Vec::new(),
        id_lists: Vec::new(),
        text_lists: Vec::new(),
        parts,
    }
}

/// A snapshot: what its rows take.
pub open spec fn is_weekwalk2_snapshot_shape(s: Shape) -> bool {
    &&& fields_are(s, seq![("no", 0i64)], Seq::empty(), Seq::empty(), seq!["skillIds"], Seq::empty())
    &&& s.parts@.len() == 0
}

pub fn weekwalk2_snapshot_shape() -> (s: Shape)
    ensures
        is_weekwalk2_snapshot_shape(s),
{
    let mut parts: Vec<(&'static str, bool, Shape)> = Vec::new();
    Shape {
        ints: vec![("no", 0i64)],
        flags: Vec::new(),
        texts: Vec::new(),
        id_lists: vec!["skillIds"],
        text_lists: Vec::new(),
        parts,
    }
}

/// The state under `info`: what its rows take.
pub open spec fn is_weekwalk2_state_shape(s: Shape) -> bool {
    &&& fields_are(s, seq![("timeId", 0i64), ("startTime", 0i64), ("endTime", 0i64)], seq![("popRule", false)], Seq::empty(), Seq::empty(), Seq::empty())
    &&& s.parts@.len() == 3
    &&& part_is(s, 0, "layerInfos", false)
    &&& is_weekwalk2_layer_shape(s.parts@[0].2)
    &&& part_is(s, 1, "prevSettle", true)
    &&& is_weekwalk2_settle_shape(s.parts@[1].2)
    &&& part_is(s, 2, "snapshotInfos", false)
    &&& is_weekwalk2_snapshot_shape(s.parts@[2].2)
}

pub fn weekwalk2_state_shape() -> (s: Shape)
    ensures
        is_weekwalk2_state_shape(s),
{
    let mut parts: Vec<(&'static str, bool, Shape)> = Vec::new();
    parts.push(("layerInfos", false, weekwalk2_layer_shape()));
    parts.push(("prevSettle", true, weekwalk2_settle_shape()));
    parts.push(("snapshotInfos", false, weekwalk2_snapshot_shape()));
    Shape {
        ints: vec![("timeId", 0i64), ("startTime", 0i64), ("endTime", 0i64)],
        flags: vec![("popRule", false)],
        texts: Vec::new(),
        id_lists: Vec::new(),
        text_lists: Vec::new(),
        parts,
    }
}

/// The weekly-walk (second version) asset: what its rows take.
pub open spec fn is_weekwalk2_info_shape(s: Shape) -> bool {
    &&& fields_are(s, Seq::empty(), Seq::empty(), Seq::empty(), Seq::empty(), Seq::empty())
    &&& s.parts@.len() == 1
    &&& part_is(s, 0, "info", true)
    &&& is_weekwalk2_state_shape(s.parts@[0].2)
}

pub fn weekwalk2_info_shape() -> (s: Shape)
    ensures
        is_weekwalk2_info_shape(s),
{
    let mut parts: Vec<(&'static str, bool, Shape)> = Vec::new();
    parts.push(("info", true, weekwalk2_state_shape()));
    Shape {
        ints: Vec::new(),
        flags: Vec::new(),
        texts: Vec::new(),
        id_lists: Vec::new(),
        text_lists: Vec::new(),
        parts,
    }
}

/// A single bag of a lucky bag: what its rows take.
pub open spec fn is_single_bag_shape(s: Shape) -> bool {
    &&& fields_are(s, seq![("bagId", 0i64)], seq![("isOpen", false)], Seq::empty(), Seq::empty(), Seq::empty())
    &&& s.parts@.len() == 0
}

pub fn single_bag_shape() -> (s: Shape)
    ensures
        is_single_bag_shape(s),
{
    let mut parts: Vec<(&'static str, bool, Shape)> = Vec::new();
    Shape {
        ints: vec![("bagId", 0i64)],
        flags: vec![("isOpen", false)],
        texts: Vec::new(),
        id_lists: Vec::new(),
        text_lists: Vec::new(),
        parts,
    }
}

/// The lucky bag of a pool: what its rows take.
pub open spec fn is_lucky_bag_shape(s: Shape) -> bool {
    &&& fields_are(s, seq![("count", 0i64), ("notSSRCount", 0i64)], Seq::empty(), Seq::empty(), Seq::empty(), Seq::empty())
    &&& s.parts@.len() == 1
    &&& part_is(s, 0, "singleBagInfos", false)
    &&& is_single_bag_shape(s.parts@[0].2)
}

pub fn lucky_bag_shape() -> (s: Shape)
    ensures
        is_lucky_bag_shape(s),
{
    let mut parts: Vec<(&'static str, bool, Shape)> = Vec::new();
    parts.push(("singleBagInfos", false, single_bag_shape()));
    Shape {
        ints: vec![("count", 0i64), ("notSSRCount", 0i64)],
        flags: Vec::new(),
        texts: Vec::new(),
        id_lists: Vec::new(),
        text_lists: Vec::new(),
        parts,
    }
}

/// The special-pool settings of a pool: what its rows take.
pub open spec fn is_sp_pool_shape(s: Shape) -> bool {
    &&& fields_are(s, seq![("type", 0i64), ("limitedTicketId", 0i64), ("limitedTicketNum", 0i64), ("openTime", 0i64)], seq![("usedFirstSSRGuarantee", false)], Seq::empty(), seq!["UpHeroIds", "hasGetRewardProgresses"], Seq::empty())
    &&& s.parts@.len() == 0
}

pub fn sp_pool_shape() -> (s: Shape)
    ensures
        is_sp_pool_shape(s),
{
    let mut parts: Vec<(&'static str, bool, Shape)> = Vec::new();
    Shape {
        ints: vec![("type", 0i64), ("limitedTicketId", 0i64), ("limitedTicketNum", 0i64), ("openTime", 0i64)],
        flags: vec![("usedFirstSSRGuarantee", false)],
        texts: Vec::new(),
        id_lists: vec!["UpHeroIds", "hasGetRewardProgresses"],
        text_lists: Vec::new(),
        parts,
    }
}

/// A summon pool: what its rows take.
pub open spec fn is_summon_pool_shape(s: Shape) -> bool {
    &&& fields_are(s, seq![("poolId", 0i64), ("onlineTime", 0i64), ("offlineTime", 0i64), ("usedFreeCount", 0i64), ("discountTime", 0i64), ("canGetGuaranteeSRCount", 0i64), ("guaranteeSRCountDown", 0i64), ("summonCount", 0i64)], seq![("haveFree", false)], Seq::empty(), Seq::empty(), Seq::empty())
    &&& s.parts@.len() == 2
    &&& part_is(s, 0, "luckyBagInfo", true)
    &&& is_lucky_bag_shape(s.parts@[0].2)
    &&& part_is(s, 1, "spPoolInfo", true)
    &&& is_sp_pool_shape(s.parts@[1].2)
}

pub fn summon_pool_shape() -> (s: Shape)
    ensures
        is_summon_pool_shape(s),
{
    let mut parts: Vec<(&'static str, bool, Shape)> = Vec::new();
    parts.push(("luckyBagInfo", true, lucky_bag_shape()));
    parts.push(("spPoolInfo", true, sp_pool_shape()));
    Shape {
        ints: vec![("poolId", 0i64), ("onlineTime", 0i64), ("offlineTime", 0i64), ("usedFreeCount", 0i64), ("discountTime", 0i64), ("canGetGuaranteeSRCount", 0i64), ("guaranteeSRCountDown", 0i64), ("summonCount", 0i64)],
        flags: vec![("haveFree", false)],
        texts: Vec::new(),
        id_lists: Vec::new(),
        text_lists: Vec::new(),
        parts,
    }
}

/// The summon asset: what its rows take.
pub open spec fn is_summon_info_shape(s: Shape) -> bool {
    &&& fields_are(s, seq![("newSummonCount", 0i64), ("totalSummonCount", 0i64)], seq![("freeEquipSummon", false), ("isShowNewSummon", false)], Seq::empty(), Seq::empty(), Seq::empty())
    &&& s.parts@.len() == 1
    &&& part_is(s, 0, "poolInfos", false)
    &&& is_summon_pool_shape(s.parts@[0].2)
}

pub fn summon_info_shape() -> (s: Shape)
    ensures
        is_summon_info_shape(s),
{
    let mut parts: Vec<(&'static str, bool, Shape)> = Vec::new();
    parts.push(("poolInfos", false, summon_pool_shape()));
    Shape {
        ints: vec![("newSummonCount", 0i64), ("totalSummonCount", 0i64)],
        flags: vec![("freeEquipSummon", false), ("isShowNewSummon", false)],
        texts: Vec::new(),
        id_lists: Vec::new(),
        text_lists: Vec::new(),
        parts,
    }
}

/// The rows of the tower asset `data`: exactly what its shape reads.
pub fn tower_rows(data: &Json) -> (r: Rows)
    ensures
        exists|s: Shape| is_tower_info_shape(s) && #[trigger] rows_of(r, *data, s),
{
    let s = tower_info_shape();
    let r = read_rows(data, &s);
    assert(is_tower_info_shape(s) && rows_of(r, *data, s));
    r
}

/// The rows of the weekly-walk asset `data`: exactly what its shape reads.
pub fn weekwalk_rows(data: &Json) -> (r: Rows)
    ensures
        exists|s: Shape| is_weekwalk_info_shape(s) && #[trigger] rows_of(r, *data, s),
{
    let s = weekwalk_info_shape();
    let r = read_rows(data, &s);
    assert(is_weekwalk_info_shape(s) && rows_of(r, *data, s));
    r
}

/// The rows of the weekly-walk (second version) asset `data`: exactly what its shape reads.
pub fn weekwalk_v2_rows(data: &Json) -> (r: Rows)
    ensures
        exists|s: Shape| is_weekwalk2_info_shape(s) && #[trigger] rows_of(r, *data, s),
{
    let s = weekwalk2_info_shape();
    let r = read_rows(data, &s);
    assert(is_weekwalk2_info_shape(s) && rows_of(r, *data, s));
    r
}

/// The rows of the summon asset `data`: exactly what its shape reads.
pub fn summon_rows(data: &Json) -> (r: Rows)
    ensures
        exists|s: Shape| is_summon_info_shape(s) && #[trigger] rows_of(r, *data, s),
{
    let s = summon_info_shape();
    let r = read_rows(data, &s);
    assert(is_summon_info_shape(s) && rows_of(r, *data, s));
    r
}

} // verus!
