use std::collections::HashMap;

use sonetto::game_config::{
    Character, CharacterDestiny, CharacterLevel, CharacterRank, CharacterTalent, CharacterVoice,
    EquipStrengthen, HeroTables, Skin, SkillPassiveLevel, TalentScheme, TalentStyleCost,
};
use sonetto::hero::{create_hero, model_create_hero, starter_heroes};
use sonetto::hero_rules::{
    insight_skin, rarity_column, talent_scheme_cubes, unlock_talent_style, upgraded_ex_skill_level,
    use_touch, weapon_choice, StyleError,
};
use sonetto::hero_tables::{first_id_or, parse_id_list, parse_scheme_cubes};

fn lvl(hero_id: i32, level: i32, hp: i32) -> CharacterLevel {
    CharacterLevel {
        hero_id,
        level,
        hp,
        atk: 10 * level,
        def: 5,
        mdef: 6,
        technic: 7,
        cri: 8,
        recri: 9,
        cri_dmg: 1300,
        cri_def: 11,
        add_dmg: 12,
        drop_dmg: 13,
    }
}

fn character(id: i32, rare: i32) -> Character {
    Character {
        id,
        skin_id: id * 100 + 1,
        rare,
        equip_rec: "1527#1428".to_string(),
        role_birthday: "3/14".to_string(),
    }
}

fn tables() -> HeroTables {
    HeroTables {
        character: vec![character(3029, 5), character(3001, 5), character(3123, 4), character(3125, 3)],
        character_level: vec![lvl(3001, 2, 2000), lvl(3001, 1, 1500), lvl(3001, 1, 1600), lvl(3001, 60, 9000)],
        character_rank: vec![
            CharacterRank { hero_id: 3001, rank: 2 },
            CharacterRank { hero_id: 3001, rank: 1 },
            CharacterRank { hero_id: 3001, rank: 4 },
        ],
        skin: vec![
            Skin { id: 300101, character_id: 3001, gain_approach: 0 },
            Skin { id: 300102, character_id: 3001, gain_approach: 1 },
            Skin { id: 300103, character_id: 3001, gain_approach: 2 },
            Skin { id: 999999, character_id: 0, gain_approach: 0 },
        ],
        character_destiny: vec![CharacterDestiny { hero_id: 3001, facets_id: "300101#300102#x".to_string() }],
        equip_strengthen: vec![EquipStrengthen { strength_type: 1527, hp: 100, atk: 20, def: 3, mdef: 4 }],
        character_talent: vec![
            CharacterTalent { hero_id: 3001, talent_id: 1, talent_mould: 7 },
            CharacterTalent { hero_id: 3001, talent_id: 3, talent_mould: 8 },
            CharacterTalent { hero_id: 3123, talent_id: 2, talent_mould: 9 },
            CharacterTalent { hero_id: 3125, talent_id: 1, talent_mould: 5 },
        ],
        talent_scheme: vec![
            TalentScheme { talent_id: 1, talent_mould: 7, talen_scheme: "10,1,1,0#bad#61,1,2,0".to_string() },
            TalentScheme { talent_id: 3, talent_mould: 8, talen_scheme: "11,0,0,0".to_string() },
        ],
        skill_passive_level: vec![
            SkillPassiveLevel { hero_id: 3001, skill_group: 1, skill_level: 2 },
            SkillPassiveLevel { hero_id: 3001, skill_group: 1, skill_level: 1 },
            SkillPassiveLevel { hero_id: 3001, skill_group: 3, skill_level: 4 },
        ],
        character_voice: vec![
            CharacterVoice { hero_id: 3001, voice_type: 9, audio: 11 },
            CharacterVoice { hero_id: 3001, voice_type: 10, audio: 12 },
            CharacterVoice { hero_id: 3001, voice_type: 11, audio: 13 },
        ],
    }
}

#[test]
fn created_hero_starts_at_lowest_level_and_rank() {
    let t = tables();
    let h = create_hero(&t, 3001, Some(20000005), 77, 1234).expect("hero exists");
    let r = &h.record;
    assert_eq!(r.uid, 20000006);
    assert_eq!(r.user_id, 77);
    assert_eq!(r.create_time, 1234);
    // First of the two level-1 rows.
    assert_eq!(r.level, 1);
    assert_eq!(r.base_hp, 1500);
    assert_eq!(r.rank, 1);
    // Latest skin of the hero.
    assert_eq!(r.skin, 300103);
    assert_eq!(r.faith, 100);
    assert_eq!(r.ex_skill_level, 1);
    assert_eq!(r.talent, 1);
    assert!(r.is_new);
    assert_eq!((r.destiny_rank, r.destiny_level, r.destiny_stone, r.red_dot), (1, 1, 300101, 6));
    assert_eq!(h.destiny_stones, vec![300101, 300102]);
    // Groups 1..=3: group 2 has no rows and defaults to 1.
    assert_eq!(h.passive_skill_levels, vec![1, 1, 4]);
    assert_eq!(h.voices, vec![11, 13]);
    assert_eq!(h.item_unlocks, vec![6, 3, 7, 4]);
    assert_eq!(h.template_ids, vec![1, 2, 3, 4]);
    assert!(h.talent_cubes.is_empty());
    assert_eq!(h.rarity, 5);
    assert_eq!(r.extra_str, "");
}

#[test]
fn first_hero_ever_gets_first_uid() {
    let t = tables();
    let h = create_hero(&t, 3001, None, 1, 0).unwrap();
    assert_eq!(h.record.uid, 20000001);
}

#[test]
fn npc_and_unknown_heroes_are_refused() {
    let t = tables();
    assert!(create_hero(&t, 3029, None, 1, 0).is_none());
    assert!(create_hero(&t, 4242, None, 1, 0).is_none());
    assert!(model_create_hero(&t, 3029, None, 1, 0).is_none());
}

#[test]
fn hero_without_rows_uses_fallbacks() {
    let t = tables();
    let h = create_hero(&t, 3123, None, 1, 0).unwrap();
    let r = &h.record;
    assert_eq!((r.level, r.base_hp, r.base_attack, r.ex_cri_dmg), (1, 1000, 100, 1300));
    assert_eq!(r.rank, 1);
    assert_eq!(r.skin, 312301);
    assert_eq!((r.destiny_rank, r.destiny_level, r.destiny_stone, r.red_dot), (0, 0, 0, 0));
    assert_eq!(r.extra_str, "1003#2003");
    assert_eq!(r.talent, 2);
    assert!(h.passive_skill_levels.is_empty());
}

#[test]
fn model_hero_places_first_talent_scheme() {
    let t = tables();
    let h = model_create_hero(&t, 3001, Some(5), 1, 0).unwrap();
    let r = &h.record;
    assert_eq!(r.uid, 6);
    assert_eq!(r.skin, 300101);
    assert_eq!(r.faith, 10400);
    assert_eq!(r.ex_skill_level, 0);
    assert_eq!(r.talent, 1);
    assert_eq!(r.talent_style_unlock, 1);
    assert_eq!(h.talent_cubes, vec![(10, 1, 1, 0), (61, 1, 2, 0)]);
}

#[test]
fn starter_heroes_are_fully_upgraded() {
    let t = tables();
    let mut equips = HashMap::new();
    equips.insert(1527, 30000042i64);
    let (heroes, counts) = starter_heroes(&t, 20000000, 9, 100, &equips);
    // Only the non-playable 3029 is left out; every other character comes.
    let ids: Vec<i32> = heroes.iter().map(|h| h.record.hero_id).collect();
    assert_eq!(ids, vec![3001, 3123, 3125]);
    let uids: Vec<i64> = heroes.iter().map(|h| h.record.uid).collect();
    assert_eq!(uids, vec![20000000, 20000001, 20000002]);
    let h = &heroes[0];
    let r = &h.record;
    assert_eq!(r.level, 60);
    assert_eq!(r.base_hp, 9000 + 100);
    assert_eq!(r.base_attack, 600 + 20);
    assert_eq!(r.rank, 4);
    assert_eq!(r.ex_skill_level, 5);
    assert_eq!(r.duplicate_count, 5);
    assert!(!r.is_new);
    assert_eq!(r.talent, 3);
    assert_eq!(r.default_equip_uid, 30000042);
    assert_eq!((r.destiny_rank, r.destiny_level), (4, 10));
    assert_eq!(h.passive_skill_levels, vec![2, 0, 4]);
    assert_eq!(h.skins, vec![300102, 300103]);
    assert_eq!(h.talent_cubes, vec![(11, 0, 0, 0)]);
    assert_eq!(h.template_ids, vec![1, 2, 3, 4]);
    assert_eq!(h.birthday_count, 1);
    // Hero 3123 has a talent row but no scheme: no templates.
    assert!(heroes[1].template_ids.is_empty());
    assert_eq!(heroes[1].record.default_equip_uid, 30000042);
    assert_eq!(counts, vec![0, 0, 0, 1, 1, 1]);
}

#[test]
fn id_lists_skip_what_does_not_parse() {
    assert_eq!(parse_id_list("300301#300302"), vec![300301, 300302]);
    assert_eq!(parse_id_list("#7##x#-3"), vec![7, -3]);
    assert_eq!(first_id_or("1530#1428", 1501), 1530);
    assert_eq!(first_id_or("", 1501), 1501);
    assert_eq!(first_id_or("abc#12", 1501), 1501);
    assert_eq!(parse_scheme_cubes("1,2,3,4#1,2,3#5,6,7,8,9#a,1,1,1#-1,0,2,3"), vec![(1, 2, 3, 4), (-1, 0, 2, 3)]);
}

#[test]
fn touches_run_out_after_five() {
    let mut left = None;
    let mut taken = 0;
    while let Some(n) = use_touch(left) {
        left = Some(n);
        taken += 1;
        assert!(taken <= 5);
    }
    assert_eq!(taken, 5);
    assert_eq!(left, Some(0));
    assert_eq!(use_touch(Some(-3)), None);
}

#[test]
fn ex_skill_is_capped_at_five() {
    assert_eq!(upgraded_ex_skill_level(1, 2), 3);
    assert_eq!(upgraded_ex_skill_level(4, 3), 5);
    assert_eq!(upgraded_ex_skill_level(0, -2), -2);
}

#[test]
fn rarity_columns() {
    assert_eq!(rarity_column(1), Some("hero_rare_nn_count"));
    assert_eq!(rarity_column(5), Some("hero_rare_ssr_count"));
    assert_eq!(rarity_column(0), None);
    assert_eq!(rarity_column(-1), None);
}

#[test]
fn insight_skin_from_rank_three() {
    let t = tables();
    assert_eq!(insight_skin(&t.skin, 3001, 2), None);
    assert_eq!(insight_skin(&t.skin, 3001, 3), Some(300102));
    assert_eq!(insight_skin(&t.skin, 3123, 3), None);
    let odd = vec![Skin { id: -98, character_id: 7, gain_approach: 1 }];
    assert_eq!(insight_skin(&odd, 7, 3), None);
}

#[test]
fn talent_style_costs_and_mask() {
    let costs = vec![
        TalentStyleCost { hero_id: 3001, style_id: 2, consume: "1#140001#5|2#3#100|9#1#1|1#2".to_string() },
        TalentStyleCost { hero_id: 3001, style_id: 3, consume: "1#-4#5".to_string() },
    ];
    let ((items, currencies), mask) = unlock_talent_style(&costs, 3001, 2, 1).unwrap();
    assert_eq!(items, vec![(140001, 5)]);
    assert_eq!(currencies, vec![(3, 100)]);
    assert_eq!(mask, 1 | (1 << 2));
    assert_eq!(unlock_talent_style(&costs, 3001, 3, 0).unwrap_err(), StyleError::BadCost);
    assert_eq!(unlock_talent_style(&costs, 3001, 5, 0).unwrap_err(), StyleError::CostNotFound);
    let (_, top) = unlock_talent_style(
        &vec![TalentStyleCost { hero_id: 1, style_id: 31, consume: String::new() }],
        1,
        31,
        0,
    )
    .unwrap();
    assert_eq!(top, i32::MIN);
}

#[test]
fn talent_scheme_lookup() {
    let t = tables();
    assert_eq!(talent_scheme_cubes(&t.talent_scheme, 3, 8), Some(vec![(11, 0, 0, 0)]));
    assert_eq!(talent_scheme_cubes(&t.talent_scheme, 3, 9), None);
}

#[test]
fn weapon_choice_text() {
    assert_eq!(weapon_choice(1003, 2003), "1003#2003");
    assert_eq!(weapon_choice(-1, 0), "-1#0");
}
