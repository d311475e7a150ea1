use sonetto::starter_rows::{
    rows_from_text, summon_info_shape, summon_rows, tower_info_shape, tower_rows, weekwalk2_info_shape, weekwalk_info_shape,
    weekwalk_rows, weekwalk_v2_rows,
};
use sonetto::json::{json_from_text, Json};

#[test]
fn tower_asset_rows_reach_heroes_and_talent_plans() {
    let text = r#"{"mopUpTimes":3,
        "towerOpens":[{"type":1,"towerId":2,"status":3}],
        "towers":[{"type":1,"towerId":2,"params":"p","openSpLayerIds":[5,"x",6],
            "layerNOs":[{"layerId":7,"currHighScore":9,
                "episodeNOs":[{"episodeId":8,"assistBossId":4,"heros":[{"heroId":3001,"trialId":2}]}]}]}],
        "assistBosses":[{"id":9,"talentPlans":[{"planId":1,"planName":"a","talentIds":[1,2]}]}]}"#;
    let r = rows_from_text(text, &tower_info_shape()).unwrap();
    assert_eq!(r.ints, vec![3, 0]);
    assert_eq!(r.parts[0][0].ints, vec![1, 2, 3, 0, 0, 0, 0]);
    let t = &r.parts[1][0];
    assert_eq!(t.ints, vec![1, 2, 0, 0]);
    assert_eq!(t.texts, vec!["p".to_string()]);
    assert_eq!(t.id_lists, vec![vec![5, 6], vec![]]);
    let l = &t.parts[0][0];
    assert_eq!(l.ints, vec![7, 9, 0]);
    let e = &l.parts[0][0];
    assert_eq!(e.ints, vec![8, 0, 4]);
    assert_eq!(e.parts[0][0].ints, vec![3001, 2]);
    // The level of an assist boss is 1 where the asset gives none.
    let b = &r.parts[2][0];
    assert_eq!(b.ints, vec![9, 1, 0]);
    assert_eq!(b.parts[0][0].texts, vec!["a".to_string()]);
    assert_eq!(b.parts[0][0].id_lists, vec![vec![1, 2]]);
    assert!(rows_from_text("not json", &tower_info_shape()).is_none());
    let empty = tower_rows(&Json::Null);
    assert_eq!(empty.ints, vec![0, 0]);
    assert!(empty.parts.iter().all(|p| p.is_empty()));
}

#[test]
fn weekwalk_asset_rows() {
    let text = r#"{"timeThisWeek":12,"info":{"time":1,"isOpenDeep":true,"deepProgress":"d",
        "mapInfo":[{"id":101,"isShowBuff":true,"storyIds":[7],
            "battleInfos":[{"battleId":5,"star":3,"heroIds":[3001,3002]}],
            "elementInfos":[{"elementId":6,"visible":true,"historylist":["a",1,"b"]}],
            "heroInfos":[{"heroId":3001,"cd":2}]}]}}"#;
    let r = rows_from_text(text, &weekwalk_info_shape()).unwrap();
    assert_eq!(r.ints, vec![12]);
    let info = &r.parts[0][0];
    assert_eq!(info.ints, vec![1, 0, 0, 0]);
    assert_eq!(info.flags, vec![false, true, false, false]);
    let m = &info.parts[0][0];
    assert_eq!(m.flags, vec![true, false, false]);
    assert_eq!(m.id_lists, vec![vec![7]]);
    assert_eq!(m.parts[0][0].id_lists, vec![vec![3001, 3002]]);
    assert_eq!(m.parts[1][0].text_lists, vec![vec![(0, "a".to_string()), (2, "b".to_string())]]);
    assert_eq!(m.parts[2][0].ints, vec![3001, 2]);
    // No `info` object: no state rows.
    let none = rows_from_text(r#"{"info":[1]}"#, &weekwalk_info_shape()).unwrap();
    assert!(none.parts[0].is_empty());
    assert!(weekwalk_rows(&Json::Null).parts[0].is_empty());
}

#[test]
fn weekwalk_v2_and_summon_asset_rows() {
    let text = r#"{"info":{"timeId":4,"popRule":true,
        "layerInfos":[{"id":1,"params":"q","battleInfos":[{"battleId":2,"chooseSkillIds":[9],"cupInfos":[{"id":1,"result":2}]}],
            "elementInfos":[{"elementId":3,"finish":true}]}],
        "prevSettle":{"maxLayerId":5,"layerInfos":[{"layerId":1,"platinumCupNum":3}]},
        "snapshotInfos":[{"no":2,"skillIds":[1]}]}}"#;
    let r = rows_from_text(text, &weekwalk2_info_shape()).unwrap();
    let info = &r.parts[0][0];
    assert_eq!((info.ints.clone(), info.flags.clone()), (vec![4, 0, 0], vec![true]));
    assert_eq!(info.parts[0][0].parts[0][0].id_lists, vec![vec![], vec![9]]);
    assert_eq!(info.parts[0][0].parts[0][0].parts[0][0].ints, vec![1, 2]);
    assert_eq!(info.parts[0][0].parts[1][0].flags, vec![true, false]);
    assert_eq!(info.parts[1][0].parts[0][0].ints, vec![1, 3]);
    assert_eq!(info.parts[2][0].id_lists, vec![vec![1]]);
    assert!(weekwalk_v2_rows(&Json::Null).parts[0].is_empty());

    let text = r#"{"freeEquipSummon":true,"totalSummonCount":40,
        "poolInfos":[{"poolId":7,"haveFree":true,"summonCount":3,
            "luckyBagInfo":{"count":1,"singleBagInfos":[{"bagId":2,"isOpen":true}]},
            "spPoolInfo":{"type":2,"UpHeroIds":[3001]}},{"poolId":8}]}"#;
    let r = rows_from_text(text, &summon_info_shape()).unwrap();
    assert_eq!((r.ints.clone(), r.flags.clone()), (vec![0, 40], vec![true, false]));
    let p = &r.parts[0][0];
    assert_eq!(p.ints, vec![7, 0, 0, 0, 0, 0, 0, 3]);
    assert_eq!(p.parts[0][0].parts[0][0].flags, vec![true]);
    assert_eq!(p.parts[1][0].id_lists, vec![vec![3001], vec![]]);
    assert!(r.parts[0][1].parts[0].is_empty() && r.parts[0][1].parts[1].is_empty());
    assert!(summon_rows(&Json::Null).parts[0].is_empty());
}

#[test]
fn json_text_is_read_into_values() {
    let v = json_from_text("{\"a\": 7, \"b\": [true, null, \"x\"], \"c\": -2}").unwrap();
    let Json::Object(entries) = &v else { panic!("not an object") };
    assert_eq!(entries.len(), 3);
    assert_eq!(entries[0].0, "a");
    assert!(matches!(entries[0].1, Json::Number { as_i64: Some(7), as_u64: Some(7) }));
    let Json::Array(items) = &entries[1].1 else { panic!("not an array") };
    assert!(matches!(items[0], Json::Bool(true)));
    assert!(matches!(items[1], Json::Null));
    assert!(matches!(&items[2], Json::Str(s) if s == "x"));
    assert!(matches!(entries[2].1, Json::Number { as_i64: Some(-2), as_u64: None }));
    assert!(json_from_text("{not json").is_none());
}
