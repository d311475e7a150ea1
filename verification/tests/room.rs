use sonetto::hero_group::{equip_rows_from_asset, group_equips};
use sonetto::json::Json;
use sonetto::room::{block_rows, building_rows, first_building_uid, kept_count, package_rows, road_rows, FIRST_BUILDING_UID};

fn num(n: i64) -> Json {
    Json::Number { as_i64: Some(n), as_u64: if n >= 0 { Some(n as u64) } else { None } }
}

fn obj(entries: Vec<(&str, Json)>) -> Json {
    Json::Object(entries.into_iter().map(|(k, v)| (k.to_string(), v)).collect())
}

fn ints(ns: &[i64]) -> Json {
    Json::Array(ns.iter().map(|n| num(*n)).collect())
}

#[test]
fn blocks_skip_entries_without_id() {
    let infos = vec![
        obj(vec![("blockId", num(11)), ("x", num(2)), ("y", num(-3)), ("rotate", num(1)), ("blockColor", num(4))]),
        obj(vec![("blockId", num(0)), ("x", num(9))]),
        obj(vec![("x", num(9))]),
        obj(vec![("blockId", num(12)), ("waterType", num(1 << 33))]),
    ];
    let rows = block_rows(&infos, 77);
    assert_eq!(rows.len(), 2);
    assert_eq!((rows[0].user_id, rows[0].block_id, rows[0].x, rows[0].y, rows[0].rotate), (77, 11, 2, -3, 1));
    assert_eq!((rows[0].water_type, rows[0].block_color), (0, 4));
    assert_eq!(rows[1].block_id, 12);
    // 2^33 cut to 32 bits is 0.
    assert_eq!(rows[1].water_type, 0);
}

#[test]
fn buildings_get_consecutive_uids() {
    assert_eq!(first_building_uid(None), FIRST_BUILDING_UID);
    assert_eq!(first_building_uid(Some(20000005)), 20000006);
    let infos = vec![
        obj(vec![("defineId", num(5)), ("use", Json::Bool(true)), ("level", num(2))]),
        obj(vec![("defineId", num(0))]),
        obj(vec![("defineId", num(6)), ("x", num(1)), ("use", num(1))]),
    ];
    assert_eq!(kept_count(&infos, "defineId"), 2);
    let rows = building_rows(&infos, 20000000);
    assert_eq!(rows.len(), 2);
    // The uids may run up to the largest i64 when nothing is left to count past it.
    let last = building_rows(&infos, i64::MAX - 2);
    assert_eq!((last[0].uid, last[1].uid), (i64::MAX - 2, i64::MAX - 1));
    assert_eq!((rows[0].uid, rows[0].define_id, rows[0].in_use, rows[0].level), (20000000, 5, true, 2));
    assert_eq!((rows[1].uid, rows[1].define_id, rows[1].in_use, rows[1].x), (20000001, 6, false, 1));
}

#[test]
fn packages_keep_id_lists_as_json_text() {
    let packages = vec![
        obj(vec![
            ("blockPackageId", num(3)),
            ("unUseBlockIds", ints(&[1, -2, 30])),
            ("useBlockIds", Json::Array(vec![num(7), Json::Str("8".to_string())])),
        ]),
        obj(vec![("blockPackageId", num(0)), ("useBlockIds", ints(&[1]))]),
        obj(vec![("blockPackageId", num(4))]),
    ];
    let rows = package_rows(&packages, 9);
    assert_eq!(rows.len(), 2);
    assert_eq!(rows[0].block_package_id, 3);
    assert_eq!(rows[0].unused_block_ids, "[1,-2,30]");
    assert_eq!(rows[0].used_block_ids, "[7]");
    assert_eq!(rows[1].unused_block_ids, "[]");
    assert_eq!(rows[1].used_block_ids, "[]");
}

#[test]
fn roads_carry_a_critter_only_where_the_asset_puts_one() {
    let roads = vec![
        obj(vec![("id", num(1)), ("critterUid", num(555)), ("fromType", num(2)), ("buildingUid", num(1 << 40))]),
        obj(vec![("id", num(0)), ("critterUid", num(555))]),
        obj(vec![("id", num(2)), ("skinId", num(8))]),
    ];
    let rows = road_rows(&roads, Some(42));
    assert_eq!(rows.len(), 2);
    assert_eq!((rows[0].entry, rows[0].id, rows[0].critter_uid, rows[0].from_type), (0, 1, 42, 2));
    assert_eq!(rows[0].building_uid, 1 << 40);
    assert_eq!((rows[1].entry, rows[1].id, rows[1].critter_uid, rows[1].skin_id), (2, 2, 0, 8));
    let rows = road_rows(&roads, None);
    assert_eq!(rows[0].critter_uid, 0);
}

#[test]
fn asset_slots_become_rows_and_back() {
    let equips = vec![
        obj(vec![("index", num(0)), ("equipUid", ints(&[101, 102]))]),
        obj(vec![("index", num(2)), ("equipUid", Json::Array(vec![Json::Null, num(7)]))]),
        obj(vec![("equipUid", ints(&[9]))]),
        obj(vec![("index", num(3))]),
    ];
    let rows = equip_rows_from_asset(&equips);
    assert_eq!(rows, vec![(0, 101), (0, 102), (2, 7), (0, 9)]);
    let slots = group_equips(&rows);
    assert_eq!(slots.len(), 2);
    assert_eq!((slots[0].index, slots[0].equip_uids.clone()), (0, vec![101, 102, 9]));
    assert_eq!((slots[1].index, slots[1].equip_uids.clone()), (2, vec![7]));
}
