//! The rows of the game's data tables that the server logic reads: heroes,
//! their levels, ranks, skins, destinies, talents and voices, equipment,
//! shop goods, summon pools and power items. Each table is a vector of rows,
//! in the order of the data files.
use vstd::prelude::*;

verus! {

/// A playable (or non-playable) character.
#[derive(Debug, Clone)]
pub struct Character {
    pub id: i32,
    pub skin_id: i32,
    pub rare: i32,
    /// Recommended equipment ids, `#`-separated.
    pub equip_rec: String,
    /// Birthday as `month/day`.
    pub role_birthday: String,
}

/// The attributes a character has at one level.
#[derive(Debug, Clone, Copy, PartialEq, Eq)]
pub struct CharacterLevel {
    pub hero_id: i32,
    pub level: i32,
    pub hp: i32,
    pub atk: i32,
    pub def: i32,
    pub mdef: i32,
    pub technic: i32,
    pub cri: i32,
    pub recri: i32,
    pub cri_dmg: i32,
    pub cri_def: i32,
    pub add_dmg: i32,
    pub drop_dmg: i32,
}

#[derive(Debug, Clone, Copy)]
pub struct CharacterRank {
    pub hero_id: i32,
    pub rank: i32,
}

#[derive(Debug, Clone, Copy)]
pub struct Skin {
    pub id: i32,
    pub character_id: i32,
    pub gain_approach: i32,
}

#[derive(Debug, Clone)]
pub struct CharacterDestiny {
    pub hero_id: i32,
    /// Destiny stone ids, `#`-separated.
    pub facets_id: String,
}

#[derive(Debug, Clone, Copy)]
pub struct EquipStrengthen {
    pub strength_type: i32,
    pub hp: i32,
    pub atk: i32,
    pub def: i32,
    pub mdef: i32,
}

#[derive(Debug, Clone, Copy)]
pub struct CharacterTalent {
    pub hero_id: i32,
    pub talent_id: i32,
    pub talent_mould: i32,
}

#[derive(Debug, Clone)]
pub struct TalentScheme {
    pub talent_id: i32,
    pub talent_mould: i32,
    /// Cubes as `cube,direction,x,y`, `#`-separated.
    pub talen_scheme: String,
}

#[derive(Debug, Clone, Copy)]
pub struct SkillPassiveLevel {
    pub hero_id: i32,
    pub skill_group: i32,
    pub skill_level: i32,
}

#[derive(Debug, Clone, Copy)]
pub struct CharacterVoice {
    pub hero_id: i32,
    pub voice_type: i32,
    pub audio: i32,
}

#[derive(Debug, Clone)]
pub struct TalentStyleCost {
    pub hero_id: i32,
    pub style_id: i32,
    /// Costs as `kind#id#amount`, `|`-separated; kind 1 is an item, 2 a currency.
    pub consume: String,
}

#[derive(Debug, Clone)]
pub struct Equip {
    pub id: i32,
    pub rare: i32,
    pub name_en: String,
}

#[derive(Debug, Clone, Copy)]
pub struct StoreGoods {
    pub id: i32,
    pub refresh_time: i32,
}

#[derive(Debug, Clone, Copy)]
pub struct StoreChargeGoods {
    pub id: i32,
    pub order: i32,
    pub belong_store_id: i32,
}

#[derive(Debug, Clone, Copy)]
pub struct SummonPool {
    pub id: i32,
    pub pool_type: i32,
}

#[derive(Debug, Clone, Copy)]
pub struct PowerItemConfig {
    pub id: i32,
    pub expire_type: i32,
    pub rare: i32,
}

#[derive(Debug, Clone, Copy)]
pub struct InsightItemConfig {
    pub id: i32,
    pub expire_hours: i32,
    pub rare: i32,
}

/// An item of the item table.
#[derive(Debug, Clone)]
pub struct ItemConfig {
    pub id: i32,
    pub sub_type: i32,
    pub is_show: i32,
    pub is_stackable: i32,
    /// When the item expires; empty for items that never do.
    pub expire_time: String,
}

#[derive(Debug, Clone, Copy)]
pub struct CurrencyConfig {
    pub id: i32,
    /// The most a player may hold; 0 for no limit.
    pub max_limit: i32,
}

#[derive(Debug, Clone, Copy)]
pub struct GuideConfig {
    pub id: i32,
    pub is_online: i32,
}

/// An episode of the episode table.
#[derive(Debug, Clone, Copy)]
pub struct Episode {
    pub id: i32,
    pub chapter_id: i32,
    /// The battle fought in the episode; 0 for an episode without one.
    pub battle_id: i32,
}

/// A track of the BGM switch table.
#[derive(Debug, Clone, Copy)]
pub struct BgmSwitch {
    pub id: i32,
}

/// The hero tables.
#[derive(Debug, Clone)]
pub struct HeroTables {
    pub character: Vec<Character>,
    pub character_level: Vec<CharacterLevel>,
    pub character_rank: Vec<CharacterRank>,
    pub skin: Vec<Skin>,
    pub character_destiny: Vec<CharacterDestiny>,
    pub equip_strengthen: Vec<EquipStrengthen>,
    pub character_talent: Vec<CharacterTalent>,
    pub talent_scheme: Vec<TalentScheme>,
    pub skill_passive_level: Vec<SkillPassiveLevel>,
    pub character_voice: Vec<CharacterVoice>,
}

} // verus!
