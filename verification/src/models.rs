//! The player records that the server keeps: accounts, heroes, items,
//! currencies, summon pools, hero groups and the rest, as plain values.
use vstd::prelude::*;

verus! {

// ---------------------------------------------------------------------------
// Accounts
// ---------------------------------------------------------------------------

/// A player account.
#[derive(Debug, Clone)]
pub struct UserAccount {
    pub id: i64,
    pub username: String,
    pub email: String,
    pub vip_level: i32,
    pub first_join: bool,
    pub need_real_name: bool,
    pub real_name_status: bool,
    pub age: i32,
    pub is_adult: bool,
    pub need_activate: bool,
    pub cipher_mark: bool,
    pub account_tags: String,
}

/// The session tokens handed to a client at login.
#[derive(Debug, Clone)]
pub struct TokenInfo {
    pub token: String,
    pub refresh_token: String,
    pub expires_at: i64,
}

/// The stored session token of a user.
#[derive(Debug, Clone)]
pub struct UserToken {
    pub token: String,
}

// ---------------------------------------------------------------------------
// Achievements, blocks, command post, player card
// ---------------------------------------------------------------------------

#[derive(Debug, Clone)]
pub struct Achievement {
    pub user_id: i64,
    pub achievement_id: i32,
    pub progress: i32,
    pub has_finish: bool,
    pub is_new: bool,
    pub finish_time: i32,
    pub created_at: i64,
    pub updated_at: i64,
}

#[derive(Debug, Clone)]
pub struct SpecialBlock {
    pub user_id: i64,
    pub block_id: i32,
    pub create_time: i32,
}

#[derive(Debug, Clone)]
pub struct BlockInfo {
    pub user_id: i64,
    pub block_id: i32,
    pub x: i32,
    pub y: i32,
    pub rotate: i32,
    pub water_type: i32,
    pub block_color: i32,
}

/// A block package; its block id lists are kept as JSON arrays of integers.
#[derive(Debug, Clone)]
pub struct BlockPackage {
    pub user_id: i64,
    pub block_package_id: i32,
    pub unused_block_ids: String,
    pub used_block_ids: String,
}

#[derive(Debug, Clone, Copy)]
pub struct RoadPoint {
    pub x: i32,
    pub y: i32,
}

/// A road; its points are kept as a JSON array of `{x, y}` objects.
#[derive(Debug, Clone)]
pub struct RoadInfo {
    pub user_id: i64,
    pub id: i32,
    pub from_type: i32,
    pub to_type: i32,
    pub road_points: String,
    pub critter_uid: i64,
    pub building_uid: i64,
    pub building_define_id: i32,
    pub skin_id: i32,
    pub block_clean_type: i32,
}

#[derive(Debug, Clone)]
pub struct UserCommandPostInfo {
    pub user_id: i64,
    pub paper: i32,
    pub catch_num: i32,
}

#[derive(Debug, Clone)]
pub struct CommandPostEventInfo {
    pub event_id: i32,
    pub state: i32,
    pub hero_ids: Vec<i32>,
    pub start_time: u64,
    pub end_time: u64,
    pub is_read: bool,
}

#[derive(Debug, Clone)]
pub struct CommandPostTask {
    pub task_id: i32,
    pub progress: i32,
    pub has_finished: bool,
    pub finish_count: i32,
    pub task_type: i32,
    pub expiry_time: i32,
}

/// The profile card of a player; `show_settings` is a JSON array of strings.
#[derive(Debug, Clone)]
pub struct PlayerCardInfo {
    pub user_id: i64,
    pub show_settings: String,
    pub progress_setting: String,
    pub base_setting: String,
    pub hero_cover: String,
    pub theme_id: i32,
    pub show_achievement: String,
    pub critter: String,
    pub room_collection: String,
    pub weekwalk_deep_layer_id: i32,
    pub explore_collection: String,
    pub rouge_difficulty: i32,
    pub act128_sss_count: i32,
    pub achievement_count: i32,
    pub assist_times: i32,
    pub hero_cover_times: i32,
    pub max_faith_hero_count: i32,
    pub total_cost_power: i32,
    pub skin_count: i32,
    pub tower_layer: i32,
    pub tower_boss_pass_count: i32,
    pub hero_max_level_count: i32,
    pub weekwalk_ver2_platinum_cup: i32,
    pub hero_count: i32,
    pub tower_layer_metre: i32,
}

// ---------------------------------------------------------------------------
// Currencies and items
// ---------------------------------------------------------------------------

#[derive(Debug, Clone)]
pub struct Currency {
    pub user_id: i64,
    pub currency_id: i32,
    pub quantity: i32,
    pub last_recover_time: Option<i64>,
    pub expired_time: Option<i64>,
}

#[derive(Debug, Clone)]
pub struct Item {
    pub user_id: i64,
    pub item_id: i64,
    pub quantity: i32,
    pub last_use_time: Option<i64>,
    pub last_update_time: Option<i64>,
    pub total_gain_count: i64,
}

#[derive(Debug, Clone)]
pub struct PowerItem {
    pub uid: i64,
    pub user_id: i64,
    pub item_id: i64,
    pub quantity: i32,
    pub expire_time: i32,
    pub created_at: i64,
}

#[derive(Debug, Clone)]
pub struct InsightItem {
    pub uid: i64,
    pub user_id: i64,
    pub item_id: i32,
    pub quantity: i32,
    pub expire_time: i32,
}

// ---------------------------------------------------------------------------
// Dungeons
// ---------------------------------------------------------------------------

/// The progress of one dungeon episode.
#[derive(Debug, Clone)]
pub struct UserDungeonInfo {
    pub star: i32,
    pub challenge_count: i32,
    pub has_record: bool,
}

// ---------------------------------------------------------------------------
// Heroes
// ---------------------------------------------------------------------------

/// A hero owned by a player.
#[derive(Debug, Clone)]
pub struct Hero {
    pub uid: i64,
    pub user_id: i64,
    pub hero_id: i32,
    pub create_time: i64,
    pub level: i32,
    pub exp: i32,
    pub rank: i32,
    pub breakthrough: i32,
    pub skin: i32,
    pub faith: i32,
    pub active_skill_level: i32,
    pub ex_skill_level: i32,
    pub is_new: bool,
    pub talent: i32,
    pub default_equip_uid: i64,
    pub duplicate_count: i32,
    pub use_talent_template_id: i32,
    pub talent_style_unlock: i32,
    pub talent_style_red: i32,
    pub is_favor: bool,
    pub destiny_rank: i32,
    pub destiny_level: i32,
    pub destiny_stone: i32,
    pub red_dot: i32,
    pub extra_str: String,
    pub base_hp: i32,
    pub base_attack: i32,
    pub base_defense: i32,
    pub base_mdefense: i32,
    pub base_technic: i32,
    pub base_multi_hp_idx: i32,
    pub base_multi_hp_num: i32,
    pub ex_cri: i32,
    pub ex_recri: i32,
    pub ex_cri_dmg: i32,
    pub ex_cri_def: i32,
    pub ex_add_dmg: i32,
    pub ex_drop_dmg: i32,
}

#[derive(Debug, Clone)]
pub struct HeroSpAttribute {
    pub hero_uid: i64,
    pub revive: i32,
    pub heal: i32,
    pub absorb: i32,
    pub defense_ignore: i32,
    pub clutch: i32,
    pub final_add_dmg: i32,
    pub final_drop_dmg: i32,
    pub normal_skill_rate: i32,
    pub play_add_rate: i32,
    pub play_drop_rate: i32,
    pub dizzy_resistances: i32,
    pub sleep_resistances: i32,
    pub petrified_resistances: i32,
    pub frozen_resistances: i32,
    pub disarm_resistances: i32,
    pub forbid_resistances: i32,
    pub seal_resistances: i32,
    pub cant_get_exskill_resistances: i32,
    pub del_ex_point_resistances: i32,
    pub stress_up_resistances: i32,
    pub control_resilience: i32,
    pub del_ex_point_resilience: i32,
    pub stress_up_resilience: i32,
    pub charm_resistances: i32,
    pub rebound_dmg: i32,
    pub extra_dmg: i32,
    pub reuse_dmg: i32,
    pub big_skill_rate: i32,
    pub clutch_dmg: i32,
}

#[derive(Debug, Clone)]
pub struct HeroEquipAttribute {
    pub id: i64,
    pub hero_uid: i64,
    pub equip_id: i32,
    pub hp: i32,
    pub attack: i32,
    pub defense: i32,
    pub mdefense: i32,
    pub technic: i32,
    pub multi_hp_idx: i32,
    pub multi_hp_num: i32,
}

#[derive(Debug, Clone, Copy)]
pub struct HeroSkin {
    pub hero_uid: i64,
    pub skin: i32,
    pub expire_sec: i32,
}

/// A talent cube placed on a hero's talent board.
#[derive(Debug, Clone, Copy, PartialEq, Eq)]
pub struct HeroTalentCube {
    pub hero_uid: i64,
    pub cube_id: i32,
    pub direction: i32,
    pub pos_x: i32,
    pub pos_y: i32,
}

#[derive(Debug, Clone)]
pub struct HeroTalentTemplate {
    pub id: i64,
    pub hero_uid: i64,
    pub template_id: i32,
    pub name: String,
    pub style: i32,
}

/// A hero with everything stored about it.
#[derive(Debug, Clone)]
pub struct HeroData {
    pub record: Hero,
    pub passive_skill_levels: Vec<i32>,
    pub voices: Vec<i32>,
    pub voices_heard: Vec<i32>,
    pub skin_list: Vec<HeroSkin>,
    pub sp_attr: Option<HeroSpAttribute>,
    pub equip_attrs: Vec<HeroEquipAttribute>,
    pub item_unlocks: Vec<i32>,
    pub talent_cubes: Vec<HeroTalentCube>,
    pub talent_templates: Vec<(HeroTalentTemplate, Vec<HeroTalentCube>)>,
    pub destiny_stone_unlocks: Vec<i32>,
}

// ---------------------------------------------------------------------------
// Hero groups and their snapshots
// ---------------------------------------------------------------------------

/// The equipment placed in one slot of a hero group.
#[derive(Debug, Clone)]
pub struct HeroGroupEquip {
    pub index: i32,
    pub equip_uids: Vec<i64>,
}

/// A hero group: the heroes in order and the equipment of each slot.
#[derive(Debug, Clone)]
pub struct HeroGroupInfo {
    pub group_id: i32,
    pub hero_list: Vec<i64>,
    pub name: String,
    pub cloth_id: i32,
    pub equips: Vec<HeroGroupEquip>,
    pub activity104_equips: Vec<HeroGroupEquip>,
    pub assist_boss_id: i32,
}

#[derive(Debug, Clone)]
pub struct HeroGroupSnapshot {
    pub id: i64,
    pub user_id: i64,
    pub snapshot_id: i32,
    pub created_at: i64,
    pub updated_at: i64,
}

#[derive(Debug, Clone)]
pub struct HeroGroupSnapshotGroup {
    pub id: i64,
    pub snapshot_id: i64,
    pub group_id: i32,
    pub name: String,
    pub cloth_id: i32,
    pub assist_boss_id: i32,
}

#[derive(Debug, Clone)]
pub struct HeroGroupSnapshotInfo {
    pub snapshot_id: i32,
    pub hero_group_snapshots: Vec<HeroGroupInfo>,
    pub sort_sub_ids: Vec<i32>,
}

// ---------------------------------------------------------------------------
// Summons
// ---------------------------------------------------------------------------

#[derive(Debug, Clone)]
pub struct UserSummonStats {
    pub user_id: i64,
    pub free_equip_summon: bool,
    pub is_show_new_summon: bool,
    pub new_summon_count: i32,
    pub total_summon_count: i32,
}

#[derive(Debug, Clone)]
pub struct UserSummonPool {
    pub id: i64,
    pub user_id: i64,
    pub pool_id: i32,
    pub online_time: i32,
    pub offline_time: i32,
    pub have_free: bool,
    pub used_free_count: i32,
    pub discount_time: i32,
    pub can_get_guarantee_sr_count: i32,
    pub guarantee_sr_countdown: i32,
    pub summon_count: i32,
    pub created_at: i64,
    pub updated_at: i64,
}

#[derive(Debug, Clone, Copy)]
pub struct SingleBagInfo {
    pub bag_id: i32,
    pub is_open: bool,
}

#[derive(Debug, Clone)]
pub struct LuckyBagInfo {
    pub count: i32,
    pub single_bag_infos: Vec<SingleBagInfo>,
    pub not_ssr_count: i32,
}

#[derive(Debug, Clone)]
pub struct SpPoolInfo {
    pub sp_type: i32,
    pub up_hero_ids: Vec<i32>,
    pub limited_ticket_id: i32,
    pub limited_ticket_num: i32,
    pub open_time: u64,
    pub used_first_ssr_guarantee: bool,
    pub has_get_reward_progresses: Vec<i32>,
}

#[derive(Debug, Clone)]
pub struct SummonPoolInfo {
    pub pool: UserSummonPool,
    pub lucky_bag: Option<LuckyBagInfo>,
    pub sp_pool: Option<SpPoolInfo>,
}

// ---------------------------------------------------------------------------
// Weekwalk
// ---------------------------------------------------------------------------

#[derive(Debug, Clone)]
pub struct UserWeekwalkInfo {
    pub user_id: i64,
    pub time: i32,
    pub end_time: i32,
    pub max_layer: i32,
    pub issue_id: i32,
    pub is_pop_deep_rule: bool,
    pub is_open_deep: bool,
    pub is_pop_shallow_settle: bool,
    pub is_pop_deep_settle: bool,
    pub deep_progress: String,
    pub time_this_week: i32,
}

#[derive(Debug, Clone)]
pub struct WeekwalkMap {
    pub id: i64,
    pub user_id: i64,
    pub map_id: i32,
    pub scene_id: i32,
    pub is_finish: i32,
    pub is_finished: i32,
    pub buff_id: i32,
    pub is_show_buff: bool,
    pub is_show_finished: bool,
    pub is_show_select_cd: bool,
}

#[derive(Debug, Clone, Copy)]
pub struct WeekwalkBattle {
    pub battle_id: i32,
    pub star: i32,
    pub max_star: i32,
    pub hero_group_select: i32,
    pub element_id: i32,
}

#[derive(Debug, Clone)]
pub struct WeekwalkElementInfo {
    pub element_id: i32,
    pub is_finish: bool,
    pub index_num: i32,
    pub history_list: Vec<String>,
    pub visible: bool,
}

#[derive(Debug, Clone, Copy)]
pub struct WeekwalkHeroInfo {
    pub hero_id: i32,
    pub cd: i32,
}

} // verus!
