//! Creating heroes: the record and the side rows that a new hero gets,
//! computed from the hero tables.
//!
//! Three kinds of creation exist: a hero obtained in play (`create_hero`),
//! the same through the user's hero model (`model_create_hero`, which also
//! places the first talent scheme), and the fully upgraded heroes of a new
//! account (`starter_heroes`).
use vstd::prelude::*;
use std::collections::HashMap;
use crate::game_config::{Character, CharacterLevel, HeroTables, SkillPassiveLevel};
use crate::hero_tables::{
    character_column, character_sel, destiny_column, other_skin_column, other_skin_sel,
    strengthen_column, strengthen_sel, destiny_sel, first_id_or, first_piece_or,
    id_list, level_columns, level_keys, level_sel, parse_id_list, parse_scheme_cubes,
    passive_group_columns, passive_group_keys, passive_group_sel, passive_level_columns,
    passive_level_keys, passive_sel, rank_columns, rank_keys, rank_sel, scheme_column,
    scheme_cubes, scheme_sel, skin_columns, skin_keys, skin_sel, talent_columns, talent_keys,
    talent_level_column, talent_level_sel, talent_sel, voice_columns, voice_sel, voice_vals,
};
use crate::models::Hero;
use crate::select::{
    any_selected, filtered, first_index, first_min_index, idx, last_max_index, max_key, min_key, select_first,
    select_first_min, select_last_max, select_max_key, select_min_key, select_values,
};

verus! {

broadcast use vstd::std_specs::hash::group_hash_axioms;

/// A hero about to be stored: its record and the rows that go with it.
#[derive(Debug, Clone)]
pub struct NewHero {
    pub record: Hero,
    /// Passive skill levels, by skill index (group 1 first).
    pub passive_skill_levels: Vec<i32>,
    /// Voice ids unlocked from the start.
    pub voices: Vec<i32>,
    /// Extra skins the hero owns besides the default one.
    pub skins: Vec<i32>,
    /// Item categories unlocked for the hero.
    pub item_unlocks: Vec<i32>,
    /// Destiny stones unlocked.
    pub destiny_stones: Vec<i32>,
    /// Talent cubes placed on the active board, `(cube, direction, x, y)`;
    /// talent template 1 holds the same cubes.
    pub talent_cubes: Vec<(i32, i32, i32, i32)>,
    /// The talent templates created (names empty, style 0).
    pub template_ids: Vec<i32>,
    /// Birthday celebrations already counted.
    pub birthday_count: i32,
    /// The character's rarity.
    pub rarity: i32,
}

// ---------------------------------------------------------------------------
// What the tables say about a hero
// ---------------------------------------------------------------------------

/// The stats used where a hero has no level row.
pub open spec fn fallback_stats(hero: i32) -> CharacterLevel {
    CharacterLevel {
        hero_id: hero,
        level: 1,
        hp: 1000,
        atk: 100,
        def: 100,
        mdef: 100,
        technic: 100,
        cri: 0,
        recri: 0,
        cri_dmg: 1300,
        cri_def: 0,
        add_dmg: 0,
        drop_dmg: 0,
    }
}

pub open spec fn stats_at(t: Seq<CharacterLevel>, row: Option<int>, hero: i32) -> CharacterLevel {
    match row {
        Some(i) => t[i],
        None => fallback_stats(hero),
    }
}

/// The stats of the lowest level (the first such row).
pub open spec fn start_stats(t: HeroTables, hero: i32) -> CharacterLevel {
    stats_at(
        t.character_level@,
        first_min_index(level_keys(t.character_level@), level_sel(t.character_level@, hero)),
        hero,
    )
}

/// The stats of the highest level (the last such row).
pub open spec fn top_stats(t: HeroTables, hero: i32) -> CharacterLevel {
    stats_at(
        t.character_level@,
        last_max_index(level_keys(t.character_level@), level_sel(t.character_level@, hero)),
        hero,
    )
}

pub open spec fn min_rank(t: HeroTables, hero: i32) -> i32 {
    match min_key(rank_keys(t.character_rank@), rank_sel(t.character_rank@, hero)) {
        Some(r) => r,
        None => 1,
    }
}

pub open spec fn max_rank(t: HeroTables, hero: i32) -> i32 {
    match max_key(rank_keys(t.character_rank@), rank_sel(t.character_rank@, hero)) {
        Some(r) => r,
        None => 3,
    }
}

/// The hero's skin with the largest id, or the character's own skin.
pub open spec fn latest_skin(t: HeroTables, hero: i32, own: i32) -> i32 {
    match max_key(skin_keys(t.skin@), skin_sel(t.skin@, hero)) {
        Some(s) => s,
        None => own,
    }
}

/// The hero's skin with the smallest id, or the character's own skin.
pub open spec fn earliest_skin(t: HeroTables, hero: i32, own: i32) -> i32 {
    match min_key(skin_keys(t.skin@), skin_sel(t.skin@, hero)) {
        Some(s) => s,
        None => own,
    }
}

pub open spec fn destiny_row(t: HeroTables, hero: i32) -> Option<int> {
    first_index(destiny_sel(t.character_destiny@, hero))
}

/// `(destiny rank, destiny level, destiny stone, red dot)` of a hero that
/// starts at the given rank and destiny level.
pub open spec fn destiny_values(t: HeroTables, hero: i32, rank: i32, level: i32) -> (
    i32,
    i32,
    i32,
    i32,
) {
    match destiny_row(t, hero) {
        Some(i) => (rank, level, first_piece_or(t.character_destiny@[i].facets_id@, 0), 6),
        None => (0, 0, 0, 0),
    }
}

/// The destiny stones a hero starts with unlocked.
pub open spec fn destiny_stones(t: HeroTables, hero: i32) -> Seq<i32> {
    match destiny_row(t, hero) {
        Some(i) => id_list(t.character_destiny@[i].facets_id@),
        None => Seq::empty(),
    }
}

/// The weapon choice that two heroes carry in their record.
pub open spec fn extra_str_for(hero: i32) -> Seq<char> {
    if hero == 3123 {
        "1003#2003"@
    } else if hero == 3124 {
        "2#21,22|3#32,33,31"@
    } else {
        Seq::empty()
    }
}

/// The number of passive skill groups of a hero: its largest group, at
/// least 0.
pub open spec fn passive_groups(t: Seq<SkillPassiveLevel>, hero: i32) -> int {
    match max_key(passive_group_keys(t), passive_sel(t, hero)) {
        Some(m) => if m >= 1 {
            m as int
        } else {
            0
        },
        None => 0,
    }
}

/// The level of each passive skill group: the smallest level of the group
/// (1 where it has none) or, with `top`, the largest (0 where it has none).
pub open spec fn passive_levels(t: Seq<SkillPassiveLevel>, hero: i32, top: bool) -> Seq<i32> {
    Seq::new(
        passive_groups(t, hero) as nat,
        |k: int|
            if top {
                match max_key(passive_level_keys(t), passive_group_sel(t, hero, k + 1)) {
                    Some(v) => v,
                    None => 0,
                }
            } else {
                match min_key(passive_level_keys(t), passive_group_sel(t, hero, k + 1)) {
                    Some(v) => v,
                    None => 1,
                }
            },
    )
}

pub open spec fn start_voices(t: HeroTables, hero: i32) -> Seq<i32> {
    filtered(voice_vals(t.character_voice@), voice_sel(t.character_voice@, hero))
}

/// The item categories unlocked for every new hero.
pub open spec fn default_item_unlocks() -> Seq<i32> {
    seq![6i32, 3, 7, 4]
}

pub open spec fn all_templates() -> Seq<i32> {
    seq![1i32, 2, 3, 4]
}

/// The uid after the largest one stored, or the first uid of all.
pub open spec fn next_uid(last: Option<i64>) -> i64 {
    match last {
        Some(u) => (u + 1) as i64,
        None => 20000001,
    }
}

/// A new hero's uid is above every uid stored before, so no two heroes share
/// one.
pub proof fn lemma_next_uid_fresh(last: Option<i64>)
    requires
        last matches Some(l) ==> l < i64::MAX,
    ensures
        last matches Some(l) ==> next_uid(last) > l,
        next_uid(last) >= 20000001 || last is Some,
{
}

/// The first playable character row with this id.
pub open spec fn character_row(t: HeroTables, hero: i32) -> Option<int> {
    first_index(character_sel(t.character@, hero))
}

/// The fields that every new hero record has, whatever created it.
pub open spec fn common_record(h: Hero, hero: i32, uid: i64, user: i64, now: i64) -> bool {
    &&& h.uid == uid
    &&& h.user_id == user
    &&& h.hero_id == hero
    &&& h.create_time == now
    &&& h.exp == 0
    &&& h.breakthrough == 0
    &&& h.active_skill_level == 1
    &&& h.use_talent_template_id == 1
    &&& h.talent_style_red == 0
    &&& !h.is_favor
    &&& h.base_multi_hp_idx == 0
    &&& h.base_multi_hp_num == 0
    &&& h.extra_str@ == extra_str_for(hero)
}

/// The record carries these level stats, with the given bonus on the four
/// base attributes.
pub open spec fn stats_record(h: Hero, s: CharacterLevel, bonus: (i32, i32, i32, i32)) -> bool {
    &&& h.level == s.level
    &&& h.base_hp == s.hp + bonus.0
    &&& h.base_attack == s.atk + bonus.1
    &&& h.base_defense == s.def + bonus.2
    &&& h.base_mdefense == s.mdef + bonus.3
    &&& h.base_technic == s.technic
    &&& h.ex_cri == s.cri
    &&& h.ex_recri == s.recri
    &&& h.ex_cri_dmg == s.cri_dmg
    &&& h.ex_cri_def == s.cri_def
    &&& h.ex_add_dmg == s.add_dmg
    &&& h.ex_drop_dmg == s.drop_dmg
}

pub open spec fn destiny_record(h: Hero, d: (i32, i32, i32, i32)) -> bool {
    &&& h.destiny_rank == d.0
    &&& h.destiny_level == d.1
    &&& h.destiny_stone == d.2
    &&& h.red_dot == d.3
}

/// What a hero obtained in play looks like.
pub open spec fn created_hero(
    n: NewHero,
    t: HeroTables,
    hero: i32,
    last_uid: Option<i64>,
    user: i64,
    now: i64,
) -> bool {
    let c = t.character@[character_row(t, hero).unwrap()];
    let h = n.record;
    &&& common_record(h, hero, next_uid(last_uid), user, now)
    &&& stats_record(h, start_stats(t, hero), (0, 0, 0, 0))
    &&& h.rank == min_rank(t, hero)
    &&& h.skin == latest_skin(t, hero, c.skin_id)
    &&& h.faith == 100
    &&& h.ex_skill_level == 1
    &&& h.is_new
    &&& h.talent == (match min_key(
        talent_keys(t.character_talent@),
        talent_sel(t.character_talent@, hero),
    ) {
        Some(v) => v,
        None => 0,
    })
    &&& h.default_equip_uid == 0
    &&& h.duplicate_count == 0
    &&& h.talent_style_unlock == 0
    &&& destiny_record(h, destiny_values(t, hero, min_rank(t, hero), 1))
    &&& n.passive_skill_levels@ == passive_levels(t.skill_passive_level@, hero, false)
    &&& n.voices@ == start_voices(t, hero)
    &&& n.skins@ == Seq::<i32>::empty()
    &&& n.item_unlocks@ == default_item_unlocks()
    &&& n.destiny_stones@ == destiny_stones(t, hero)
    &&& n.talent_cubes@ == Seq::<(i32, i32, i32, i32)>::empty()
    &&& n.template_ids@ == all_templates()
    &&& n.birthday_count == 0
    &&& n.rarity == c.rare
}

/// The cubes of the scheme of talent level 1, where the hero has such a
/// talent row and its scheme exists.
pub open spec fn first_talent_cubes(t: HeroTables, hero: i32) -> Seq<(i32, i32, i32, i32)> {
    match first_index(talent_level_sel(t.character_talent@, hero, 1)) {
        Some(i) => {
            let row = t.character_talent@[i];
            match first_index(scheme_sel(t.talent_scheme@, row.talent_id, row.talent_mould)) {
                Some(j) => scheme_cubes(t.talent_scheme@[j].talen_scheme@),
                None => Seq::empty(),
            }
        },
        None => Seq::empty(),
    }
}

/// What a hero created through the user's hero model looks like.
pub open spec fn model_created_hero(
    n: NewHero,
    t: HeroTables,
    hero: i32,
    last_uid: Option<i64>,
    user: i64,
    now: i64,
) -> bool {
    let c = t.character@[character_row(t, hero).unwrap()];
    let h = n.record;
    &&& common_record(h, hero, next_uid(last_uid), user, now)
    &&& stats_record(h, start_stats(t, hero), (0, 0, 0, 0))
    &&& h.rank == min_rank(t, hero)
    &&& h.skin == earliest_skin(t, hero, c.skin_id)
    &&& h.faith == 10400
    &&& h.ex_skill_level == 0
    &&& h.is_new
    &&& h.talent == 1
    &&& h.default_equip_uid == 0
    &&& h.duplicate_count == 0
    &&& h.talent_style_unlock == 1
    &&& destiny_record(h, destiny_values(t, hero, min_rank(t, hero), 1))
    &&& n.passive_skill_levels@ == passive_levels(t.skill_passive_level@, hero, false)
    &&& n.voices@ == start_voices(t, hero)
    &&& n.skins@ == Seq::<i32>::empty()
    &&& n.item_unlocks@ == default_item_unlocks()
    &&& n.destiny_stones@ == destiny_stones(t, hero)
    &&& n.talent_cubes@ == first_talent_cubes(t, hero)
    &&& n.template_ids@ == all_templates()
    &&& n.birthday_count == 0
    &&& n.rarity == c.rare
}

// ---------------------------------------------------------------------------
// Computing it
// ---------------------------------------------------------------------------

fn first_row(sel: &Vec<bool>) -> (r: Option<usize>)
    ensures
        idx(r) == first_index(sel@),
        r matches Some(i) ==> i < sel@.len(),
{
    select_first(sel)
}

/// The level stats a hero starts with (`top`: those it ends with).
fn hero_stats(t: &Vec<CharacterLevel>, hero: i32, top: bool) -> (s: CharacterLevel)
    ensures
        s == stats_at(
            t@,
            if top {
                last_max_index(level_keys(t@), level_sel(t@, hero))
            } else {
                first_min_index(level_keys(t@), level_sel(t@, hero))
            },
            hero,
        ),
{
    let (keys, sel) = level_columns(t, hero);
    let row = if top {
        select_last_max(&keys, &sel)
    } else {
        select_first_min(&keys, &sel)
    };
    match row {
        Some(i) => t[i],
        None => CharacterLevel {
            hero_id: hero,
            level: 1,
            hp: 1000,
            atk: 100,
            def: 100,
            mdef: 100,
            technic: 100,
            cri: 0,
            recri: 0,
            cri_dmg: 1300,
            cri_def: 0,
            add_dmg: 0,
            drop_dmg: 0,
        },
    }
}

fn hero_rank(t: &HeroTables, hero: i32, top: bool) -> (r: i32)
    ensures
        r == (if top {
            max_rank(*t, hero)
        } else {
            min_rank(*t, hero)
        }),
{
    let (keys, sel) = rank_columns(&t.character_rank, hero);
    if top {
        match select_max_key(&keys, &sel) {
            Some(v) => v,
            None => 3,
        }
    } else {
        match select_min_key(&keys, &sel) {
            Some(v) => v,
            None => 1,
        }
    }
}

fn hero_skin(t: &HeroTables, hero: i32, own: i32, latest: bool) -> (r: i32)
    ensures
        r == (if latest {
            latest_skin(*t, hero, own)
        } else {
            earliest_skin(*t, hero, own)
        }),
{
    let (keys, sel) = skin_columns(&t.skin, hero);
    let found = if latest {
        select_max_key(&keys, &sel)
    } else {
        select_min_key(&keys, &sel)
    };
    match found {
        Some(v) => v,
        None => own,
    }
}

fn hero_destiny(t: &HeroTables, hero: i32, rank: i32, level: i32) -> (r: ((i32, i32, i32, i32), Vec<i32>))
    ensures
        r.0 == destiny_values(*t, hero, rank, level),
        r.1@ == destiny_stones(*t, hero),
{
    let sel = destiny_column(&t.character_destiny, hero);
    match first_row(&sel) {
        Some(i) => {
            let facets = t.character_destiny[i].facets_id.as_str();
            let stone = first_id_or(facets, 0);
            let stones = parse_id_list(facets);
            ((rank, level, stone, 6), stones)
        },
        None => ((0, 0, 0, 0), Vec::new()),
    }
}

fn extra_str(hero: i32) -> (s: String)
    ensures
        s@ == extra_str_for(hero),
{
    if hero == 3123 {
        "1003#2003".to_owned()
    } else if hero == 3124 {
        "2#21,22|3#32,33,31".to_owned()
    } else {
        String::new()
    }
}

/// The passive skill levels, group by group.
pub fn hero_passive_levels(t: &Vec<SkillPassiveLevel>, hero: i32, top: bool) -> (r: Vec<i32>)
    ensures
        r@ == passive_levels(t@, hero, top),
{
    let (gkeys, gsel) = passive_group_columns(t, hero);
    let count: i64 = match select_max_key(&gkeys, &gsel) {
        Some(m) => if m >= 1 {
            m as i64
        } else {
            0
        },
        None => 0,
    };
    assert(count == passive_groups(t@, hero));
    let mut r: Vec<i32> = Vec::new();
    let mut g: i64 = 1;
    while g <= count
        invariant
            count == passive_groups(t@, hero),
            0 <= count <= i32::MAX,
            1 <= g <= count + 1,
            r@.len() == g - 1,
            forall|k: int| 0 <= k < g - 1 ==> r@[k] == passive_levels(t@, hero, top)[k],
        decreases count + 1 - g,
    {
        let (keys, sel) = passive_level_columns(t, hero, g as i32);
        let v = if top {
            match select_max_key(&keys, &sel) {
                Some(v) => v,
                None => 0,
            }
        } else {
            match select_min_key(&keys, &sel) {
                Some(v) => v,
                None => 1,
            }
        };
        r.push(v);
        g = g + 1;
    }
    assert(r@ =~= passive_levels(t@, hero, top));
    r
}

fn hero_voices(t: &HeroTables, hero: i32) -> (r: Vec<i32>)
    ensures
        r@ == start_voices(*t, hero),
{
    let (vals, sel) = voice_columns(&t.character_voice, hero);
    select_values(&vals, &sel)
}

fn item_unlocks() -> (r: Vec<i32>)
    ensures
        r@ == default_item_unlocks(),
{
    let r = vec![6i32, 3, 7, 4];
    assert(r@ =~= default_item_unlocks());
    r
}

fn templates() -> (r: Vec<i32>)
    ensures
        r@ == all_templates(),
{
    let r = vec![1i32, 2, 3, 4];
    assert(r@ =~= all_templates());
    r
}

fn uid_after(last: Option<i64>) -> (u: i64)
    requires
        last matches Some(l) ==> l < i64::MAX,
    ensures
        u == next_uid(last),
{
    match last {
        Some(l) => l + 1,
        None => 20000001,
    }
}

/// The talent cubes of a hero's first talent scheme.
fn hero_first_cubes(t: &HeroTables, hero: i32) -> (r: Vec<(i32, i32, i32, i32)>)
    ensures
        r@ == first_talent_cubes(*t, hero),
{
    let sel = talent_level_column(&t.character_talent, hero, 1);
    match first_row(&sel) {
        Some(i) => {
            let row = t.character_talent[i];
            let ssel = scheme_column(&t.talent_scheme, row.talent_id, row.talent_mould);
            match first_row(&ssel) {
                Some(j) => parse_scheme_cubes(t.talent_scheme[j].talen_scheme.as_str()),
                None => Vec::new(),
            }
        },
        None => Vec::new(),
    }
}

/// A hero obtained in play: the record and rows to store, or `None` where
/// no playable character has the id. `last_uid` is the largest hero uid
/// stored so far.
pub fn create_hero(
    t: &HeroTables,
    hero_id: i32,
    last_uid: Option<i64>,
    user_id: i64,
    now: i64,
) -> (r: Option<NewHero>)
    requires
        last_uid matches Some(l) ==> l < i64::MAX,
    ensures
        r is None <==> character_row(*t, hero_id) is None,
        r matches Some(n) ==> created_hero(n, *t, hero_id, last_uid, user_id, now),
{
    let uid = uid_after(last_uid);
    let csel = character_column(&t.character, hero_id);
    let ci = match first_row(&csel) {
        Some(i) => i,
        None => return None,
    };
    let c = &t.character[ci];
    let s = hero_stats(&t.character_level, hero_id, false);
    let rank = hero_rank(t, hero_id, false);
    let skin = hero_skin(t, hero_id, c.skin_id, true);
    let (d, stones) = hero_destiny(t, hero_id, rank, 1);
    let (tkeys, tsel) = talent_columns(&t.character_talent, hero_id);
    let talent = match select_min_key(&tkeys, &tsel) {
        Some(v) => v,
        None => 0,
    };
    let record = Hero {
        uid: uid,
        user_id: user_id,
        hero_id: hero_id,
        create_time: now,
        level: s.level,
        exp: 0,
        rank: rank,
        breakthrough: 0,
        skin: skin,
        faith: 100,
        active_skill_level: 1,
        ex_skill_level: 1,
        is_new: true,
        talent: talent,
        default_equip_uid: 0,
        duplicate_count: 0,
        use_talent_template_id: 1,
        talent_style_unlock: 0,
        talent_style_red: 0,
        is_favor: false,
        destiny_rank: d.0,
        destiny_level: d.1,
        destiny_stone: d.2,
        red_dot: d.3,
        extra_str: extra_str(hero_id),
        base_hp: s.hp,
        base_attack: s.atk,
        base_defense: s.def,
        base_mdefense: s.mdef,
        base_technic: s.technic,
        base_multi_hp_idx: 0,
        base_multi_hp_num: 0,
        ex_cri: s.cri,
        ex_recri: s.recri,
        ex_cri_dmg: s.cri_dmg,
        ex_cri_def: s.cri_def,
        ex_add_dmg: s.add_dmg,
        ex_drop_dmg: s.drop_dmg,
    };
    Some(NewHero {
        record: record,
        passive_skill_levels: hero_passive_levels(&t.skill_passive_level, hero_id, false),
        voices: hero_voices(t, hero_id),
        skins: Vec::new(),
        item_unlocks: item_unlocks(),
        destiny_stones: stones,
        talent_cubes: Vec::new(),
        template_ids: templates(),
        birthday_count: 0,
        rarity: c.rare,
    })
}

/// A hero created through the user's hero model: like `create_hero`, but
/// with the first skin, full faith, no EX skill, talent 1, the first talent
/// style unlocked and the cubes of the first talent scheme placed.
pub fn model_create_hero(
    t: &HeroTables,
    hero_id: i32,
    last_uid: Option<i64>,
    user_id: i64,
    now: i64,
) -> (r: Option<NewHero>)
    requires
        last_uid matches Some(l) ==> l < i64::MAX,
    ensures
        r is None <==> character_row(*t, hero_id) is None,
        r matches Some(n) ==> model_created_hero(n, *t, hero_id, last_uid, user_id, now),
{
    let uid = uid_after(last_uid);
    let csel = character_column(&t.character, hero_id);
    let ci = match first_row(&csel) {
        Some(i) => i,
        None => return None,
    };
    let c = &t.character[ci];
    let s = hero_stats(&t.character_level, hero_id, false);
    let rank = hero_rank(t, hero_id, false);
    let skin = hero_skin(t, hero_id, c.skin_id, false);
    let (d, stones) = hero_destiny(t, hero_id, rank, 1);
    let record = Hero {
        uid: uid,
        user_id: user_id,
        hero_id: hero_id,
        create_time: now,
        level: s.level,
        exp: 0,
        rank: rank,
        breakthrough: 0,
        skin: skin,
        faith: 10400,
        active_skill_level: 1,
        ex_skill_level: 0,
        is_new: true,
        talent: 1,
        default_equip_uid: 0,
        duplicate_count: 0,
        use_talent_template_id: 1,
        talent_style_unlock: 1,
        talent_style_red: 0,
        is_favor: false,
        destiny_rank: d.0,
        destiny_level: d.1,
        destiny_stone: d.2,
        red_dot: d.3,
        extra_str: extra_str(hero_id),
        base_hp: s.hp,
        base_attack: s.atk,
        base_defense: s.def,
        base_mdefense: s.mdef,
        base_technic: s.technic,
        base_multi_hp_idx: 0,
        base_multi_hp_num: 0,
        ex_cri: s.cri,
        ex_recri: s.recri,
        ex_cri_dmg: s.cri_dmg,
        ex_cri_def: s.cri_def,
        ex_add_dmg: s.add_dmg,
        ex_drop_dmg: s.drop_dmg,
    };
    Some(NewHero {
        record: record,
        passive_skill_levels: hero_passive_levels(&t.skill_passive_level, hero_id, false),
        voices: hero_voices(t, hero_id),
        skins: Vec::new(),
        item_unlocks: item_unlocks(),
        destiny_stones: stones,
        talent_cubes: hero_first_cubes(t, hero_id),
        template_ids: templates(),
        birthday_count: 0,
        rarity: c.rare,
    })
}

// ---------------------------------------------------------------------------
// The heroes of a new account
// ---------------------------------------------------------------------------

/// Characters that a new account receives: every playable one, that is all
/// but the two non-playable ids.
pub open spec fn is_starter_id(id: i32) -> bool {
    id != 3029 && id != 9998
}

/// The recommended equipment of a character (its first listed id, 1501
/// where there is none).
pub open spec fn starter_equip(c: Character) -> i32 {
    first_piece_or(c.equip_rec@, 1501)
}

/// What the strengthen row of the equipment adds to hp, attack, defense and
/// magic defense.
pub open spec fn strengthen_bonus(t: HeroTables, equip: i32) -> (i32, i32, i32, i32) {
    match first_index(strengthen_sel(t.equip_strengthen@, equip)) {
        Some(i) => {
            let st = t.equip_strengthen@[i];
            (st.hp, st.atk, st.def, st.mdef)
        },
        None => (0, 0, 0, 0),
    }
}

pub open spec fn fits_i32(v: int) -> bool {
    i32::MIN <= v <= i32::MAX
}

/// A starter character can be built: it has talent rows, and its top stats
/// plus the strengthen bonus stay within `i32`.
pub open spec fn starter_buildable(t: HeroTables, c: Character) -> bool {
    let s = top_stats(t, c.id);
    let b = strengthen_bonus(t, starter_equip(c));
    &&& any_selected(talent_sel(t.character_talent@, c.id))
    &&& fits_i32(s.hp + b.0)
    &&& fits_i32(s.atk + b.1)
    &&& fits_i32(s.def + b.2)
    &&& fits_i32(s.mdef + b.3)
}

/// The talent row with the largest talent id (the last such row).
pub open spec fn top_talent_row(t: HeroTables, hero: i32) -> Option<int> {
    last_max_index(talent_keys(t.character_talent@), talent_sel(t.character_talent@, hero))
}

/// The scheme of the hero's top talent row, where both exist.
pub open spec fn top_scheme_row(t: HeroTables, hero: i32) -> Option<int> {
    match top_talent_row(t, hero) {
        Some(i) => {
            let row = t.character_talent@[i];
            first_index(scheme_sel(t.talent_scheme@, row.talent_id, row.talent_mould))
        },
        None => None,
    }
}

/// A fully upgraded starter hero of character `c`.
pub open spec fn starter_hero(
    n: NewHero,
    t: HeroTables,
    c: Character,
    uid: i64,
    user: i64,
    now: i64,
    equips: Map<i32, i64>,
) -> bool {
    let hero = c.id;
    let h = n.record;
    let e = starter_equip(c);
    &&& common_record(h, hero, uid, user, now)
    &&& stats_record(h, top_stats(t, hero), strengthen_bonus(t, e))
    &&& h.rank == max_rank(t, hero)
    &&& h.skin == latest_skin(t, hero, c.skin_id)
    &&& h.faith == 10400
    &&& h.ex_skill_level == 5
    &&& !h.is_new
    &&& h.talent == (match max_key(
        talent_keys(t.character_talent@),
        talent_sel(t.character_talent@, hero),
    ) {
        Some(v) => v,
        None => 0,
    })
    &&& h.default_equip_uid == (if equips.contains_key(e) {
        equips[e]
    } else {
        0
    })
    &&& h.duplicate_count == 5
    &&& h.talent_style_unlock == 1
    &&& destiny_record(h, destiny_values(t, hero, max_rank(t, hero), 10))
    &&& n.passive_skill_levels@ == passive_levels(t.skill_passive_level@, hero, true)
    &&& n.voices@ == start_voices(t, hero)
    &&& n.skins@ == filtered(skin_keys(t.skin@), other_skin_sel(t.skin@, hero, c.skin_id))
    &&& n.item_unlocks@ == default_item_unlocks()
    &&& n.destiny_stones@ == destiny_stones(t, hero)
    &&& n.talent_cubes@ == (match top_scheme_row(t, hero) {
        Some(j) => scheme_cubes(t.talent_scheme@[j].talen_scheme@),
        None => Seq::empty(),
    })
    &&& n.template_ids@ == (if top_talent_row(t, hero) is Some && top_scheme_row(t, hero) is None {
        Seq::<i32>::empty()
    } else {
        all_templates()
    })
    &&& n.birthday_count == 1
    &&& n.rarity == c.rare
}

/// The positions of the starter characters, in table order.
pub open spec fn starter_positions(cs: Seq<Character>) -> Seq<int>
    decreases cs.len(),
{
    if cs.len() == 0 {
        Seq::empty()
    } else {
        let p = starter_positions(cs.drop_last());
        if is_starter_id(cs.last().id) {
            p.push(cs.len() - 1)
        } else {
            p
        }
    }
}

/// How many starter characters have rarity `r`.
pub open spec fn rarity_count(cs: Seq<Character>, r: int) -> nat
    decreases cs.len(),
{
    if cs.len() == 0 {
        0
    } else {
        rarity_count(cs.drop_last(), r) + if is_starter_id(cs.last().id) && cs.last().rare == r {
            1nat
        } else {
            0nat
        }
    }
}

/// The per-rarity counts of the starter heroes: entry `r` for rarity `r`
/// from 1 to 5; entry 0 stays 0.
pub open spec fn rarity_counts(cs: Seq<Character>) -> Seq<i32> {
    Seq::new(6, |r: int| if 1 <= r <= 5 { rarity_count(cs, r) as i32 } else { 0i32 })
}

proof fn lemma_positions_bounded(cs: Seq<Character>)
    ensures
        starter_positions(cs).len() <= cs.len(),
        forall|k: int|
            0 <= k < starter_positions(cs).len() ==> 0 <= #[trigger] starter_positions(cs)[k]
                < cs.len() && is_starter_id(cs[starter_positions(cs)[k]].id),
    decreases cs.len(),
{
    if cs.len() > 0 {
        lemma_positions_bounded(cs.drop_last());
        let p = starter_positions(cs.drop_last());
        assert forall|k: int| 0 <= k < p.len() implies cs[p[k]] == cs.drop_last()[p[k]] by {}
    }
}

proof fn lemma_rarity_count_bounded(cs: Seq<Character>, r: int)
    ensures
        rarity_count(cs, r) <= cs.len(),
    decreases cs.len(),
{
    if cs.len() > 0 {
        lemma_rarity_count_bounded(cs.drop_last(), r);
    }
}

/// One starter hero of character `c` (a row of `t.character`).
fn starter_hero_of(
    t: &HeroTables,
    c: &Character,
    uid: i64,
    user_id: i64,
    now: i64,
    equips: &HashMap<i32, i64>,
) -> (n: NewHero)
    requires
        starter_buildable(*t, *c),
    ensures
        starter_hero(n, *t, *c, uid, user_id, now, equips@),
{
    let hero_id = c.id;
    let s = hero_stats(&t.character_level, hero_id, true);
    let rank = hero_rank(t, hero_id, true);
    let skin = hero_skin(t, hero_id, c.skin_id, true);
    let (d, stones) = hero_destiny(t, hero_id, rank, 10);
    let e = first_id_or(c.equip_rec.as_str(), 1501);
    let default_equip_uid: i64 = match equips.get(&e) {
        Some(u) => *u,
        None => 0,
    };
    let ssel = strengthen_column(&t.equip_strengthen, e);
    let bonus: (i32, i32, i32, i32) = match first_row(&ssel) {
        Some(i) => {
            let st = t.equip_strengthen[i];
            (st.hp, st.atk, st.def, st.mdef)
        },
        None => (0, 0, 0, 0),
    };
    let (tkeys, tsel) = talent_columns(&t.character_talent, hero_id);
    let talent = match select_max_key(&tkeys, &tsel) {
        Some(v) => v,
        None => 0,
    };
    let (cubes, template_ids) = match select_last_max(&tkeys, &tsel) {
        Some(i) => {
            let row = t.character_talent[i];
            let msel = scheme_column(&t.talent_scheme, row.talent_id, row.talent_mould);
            match first_row(&msel) {
                Some(j) => (parse_scheme_cubes(t.talent_scheme[j].talen_scheme.as_str()), templates()),
                None => (Vec::new(), Vec::new()),
            }
        },
        None => (Vec::new(), templates()),
    };
    let (skeys, _) = skin_columns(&t.skin, hero_id);
    let osel = other_skin_column(&t.skin, hero_id, c.skin_id);
    let skins = select_values(&skeys, &osel);
    let record = Hero {
        uid: uid,
        user_id: user_id,
        hero_id: hero_id,
        create_time: now,
        level: s.level,
        exp: 0,
        rank: rank,
        breakthrough: 0,
        skin: skin,
        faith: 10400,
        active_skill_level: 1,
        ex_skill_level: 5,
        is_new: false,
        talent: talent,
        default_equip_uid: default_equip_uid,
        duplicate_count: 5,
        use_talent_template_id: 1,
        talent_style_unlock: 1,
        talent_style_red: 0,
        is_favor: false,
        destiny_rank: d.0,
        destiny_level: d.1,
        destiny_stone: d.2,
        red_dot: d.3,
        extra_str: extra_str(hero_id),
        base_hp: s.hp + bonus.0,
        base_attack: s.atk + bonus.1,
        base_defense: s.def + bonus.2,
        base_mdefense: s.mdef + bonus.3,
        base_technic: s.technic,
        base_multi_hp_idx: 0,
        base_multi_hp_num: 0,
        ex_cri: s.cri,
        ex_recri: s.recri,
        ex_cri_dmg: s.cri_dmg,
        ex_cri_def: s.cri_def,
        ex_add_dmg: s.add_dmg,
        ex_drop_dmg: s.drop_dmg,
    };
    NewHero {
        record: record,
        passive_skill_levels: hero_passive_levels(&t.skill_passive_level, hero_id, true),
        voices: hero_voices(t, hero_id),
        skins: skins,
        item_unlocks: item_unlocks(),
        destiny_stones: stones,
        talent_cubes: cubes,
        template_ids: template_ids,
        birthday_count: 1,
        rarity: c.rare,
    }
}

/// The fully upgraded heroes of a new account, one per starter character in
/// table order, with uids counting up from `first_uid`; and the number of
/// starter heroes of each rarity (entry `r` for rarity `r`, entry 0 unused).
pub fn starter_heroes(
    t: &HeroTables,
    first_uid: i64,
    user_id: i64,
    now: i64,
    equips: &HashMap<i32, i64>,
) -> (r: (Vec<NewHero>, Vec<i32>))
    requires
        forall|i: int|
            0 <= i < t.character@.len() && is_starter_id(#[trigger] t.character@[i].id)
                ==> starter_buildable(*t, t.character@[i]),
        first_uid + t.character@.len() <= i64::MAX,
        t.character@.len() <= i32::MAX,
    ensures
        r.0@.len() == starter_positions(t.character@).len(),
        forall|k: int|
            0 <= k < r.0@.len() ==> starter_hero(
                #[trigger] r.0@[k],
                *t,
                t.character@[starter_positions(t.character@)[k]],
                (first_uid + k) as i64,
                user_id,
                now,
                equips@,
            ),
        r.1@ == rarity_counts(t.character@),
{
    let ghost cs = t.character@;
    let mut heroes: Vec<NewHero> = Vec::new();
    let mut counts: Vec<i32> = vec![0i32, 0, 0, 0, 0, 0];
    let mut i: usize = 0;
    while i < t.character.len()
        invariant
            cs == t.character@,
            i <= cs.len(),
            cs.len() <= i32::MAX,
            first_uid + cs.len() <= i64::MAX,
            forall|j: int|
                0 <= j < cs.len() && is_starter_id(#[trigger] cs[j].id) ==> starter_buildable(
                    *t,
                    cs[j],
                ),
            heroes@.len() == starter_positions(cs.take(i as int)).len(),
            forall|k: int|
                0 <= k < heroes@.len() ==> starter_hero(
                    #[trigger] heroes@[k],
                    *t,
                    cs[starter_positions(cs.take(i as int))[k]],
                    (first_uid + k) as i64,
                    user_id,
                    now,
                    equips@,
                ),
            counts@ == rarity_counts(cs.take(i as int)),
        decreases cs.len() - i,
    {
        let ghost before = cs.take(i as int);
        proof {
            assert(cs.take(i + 1).drop_last() =~= before);
            lemma_positions_bounded(before);
            assert forall|k: int| 0 <= k < starter_positions(before).len() implies
                before[starter_positions(before)[k]] == cs[starter_positions(before)[k]] by {}
        }
        let c = &t.character[i];
        if c.id != 3029 && c.id != 9998 {
            let uid: i64 = first_uid + heroes.len() as i64;
            let n = starter_hero_of(t, c, uid, user_id, now, equips);
            heroes.push(n);
            if 1 <= c.rare && c.rare <= 5 {
                let k = c.rare as usize;
                proof {
                    lemma_rarity_count_bounded(before, k as int);
                }
                let v = counts[k];
                counts.set(k, v + 1);
            }
        }
        proof {
            assert(counts@ =~= rarity_counts(cs.take(i + 1)));
        }
        i = i + 1;
    }
    assert(cs.take(cs.len() as int) =~= cs);
    (heroes, counts)
}

/// How many heroes a new account gets: one per starter character.
pub fn starter_hero_count(cs: &Vec<Character>) -> (n: usize)
    ensures
        n == starter_positions(cs@).len(),
{
    let mut n: usize = 0;
    let mut i: usize = 0;
    while i < cs.len()
        invariant
            i <= cs@.len(),
            n == starter_positions(cs@.take(i as int)).len(),
            n <= i,
        decreases cs@.len() - i,
    {
        assert(cs@.take(i + 1).drop_last() =~= cs@.take(i as int));
        let id: i32 = cs[i].id;
        if id != 3029 && id != 9998 {
            n = n + 1;
        }
        i = i + 1;
    }
    assert(cs@.take(cs@.len() as int) =~= cs@);
    n
}

/// Whether a starter character can be built (see `starter_buildable`).
pub fn can_build_starter(t: &HeroTables, c: &Character) -> (r: bool)
    ensures
        r == starter_buildable(*t, *c),
{
    let (_, tsel) = talent_columns(&t.character_talent, c.id);
    let has_talent = select_first(&tsel).is_some();
    let s = hero_stats(&t.character_level, c.id, true);
    let e = first_id_or(c.equip_rec.as_str(), 1501);
    let ssel = strengthen_column(&t.equip_strengthen, e);
    let bonus: (i32, i32, i32, i32) = match first_row(&ssel) {
        Some(i) => {
            let st = t.equip_strengthen[i];
            (st.hp, st.atk, st.def, st.mdef)
        },
        None => (0, 0, 0, 0),
    };
    let hp = s.hp as i64 + bonus.0 as i64;
    let atk = s.atk as i64 + bonus.1 as i64;
    let def = s.def as i64 + bonus.2 as i64;
    let mdef = s.mdef as i64 + bonus.3 as i64;
    let lo = i32::MIN as i64;
    let hi = i32::MAX as i64;
    has_talent && lo <= hp && hp <= hi && lo <= atk && atk <= hi && lo <= def && def <= hi && lo
        <= mdef && mdef <= hi
}

/// Whether every starter character of the table can be built.
pub fn all_starters_buildable(t: &HeroTables) -> (r: bool)
    ensures
        r == forall|i: int|
            0 <= i < t.character@.len() && is_starter_id(#[trigger] t.character@[i].id)
                ==> starter_buildable(*t, t.character@[i]),
{
    let mut i: usize = 0;
    while i < t.character.len()
        invariant
            i <= t.character@.len(),
            forall|j: int|
                0 <= j < i && is_starter_id(#[trigger] t.character@[j].id) ==> starter_buildable(
                    *t,
                    t.character@[j],
                ),
        decreases t.character@.len() - i,
    {
        let c = &t.character[i];
        if c.id != 3029 && c.id != 9998 {
            if !can_build_starter(t, c) {
                return false;
            }
        }
        i = i + 1;
    }
    true
}

} // verus!
