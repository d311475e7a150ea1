use sonetto::dungeon::{lineup_replaces, nonzero_uids, page_bounds, record_cloth, should_update_dungeon_record, Lineup, StoredRecord};
use sonetto::hero_group::{equip_rows, group_equips, merge_sort_ids};
use sonetto::models::HeroGroupEquip;

#[test]
fn pages_of_one_hundred() {
    assert_eq!(page_bounds(0, 100), vec![]);
    assert_eq!(page_bounds(1, 100), vec![(0, 1)]);
    assert_eq!(page_bounds(100, 100), vec![(0, 100)]);
    assert_eq!(page_bounds(250, 100), vec![(0, 100), (100, 200), (200, 250)]);
    let rows: Vec<u32> = (0..250).collect();
    let chunks: Vec<Vec<u32>> = rows.chunks(100).map(|c| c.to_vec()).collect();
    let ours: Vec<Vec<u32>> = page_bounds(250, 100).iter().map(|&(a, b)| rows[a..b].to_vec()).collect();
    assert_eq!(ours, chunks);
}

#[test]
fn empty_slots_are_dropped() {
    assert_eq!(nonzero_uids(&vec![0, 5, 0, 0, 7]), vec![5, 7]);
    assert_eq!(nonzero_uids(&vec![0, 0]), Vec::<i64>::new());
}

fn stored(round: i32, heroes: &str, subs: &str) -> StoredRecord {
    StoredRecord { record_round: round, hero_list: heroes.to_string(), sub_hero_list: subs.to_string() }
}

#[test]
fn record_replacement() {
    let lineup = Lineup { heroes: vec![1, 0, 2], subs: vec![0] };
    // Nothing stored yet.
    assert!(should_update_dungeon_record(None, 9, Some(&lineup)));
    // Faster.
    assert!(should_update_dungeon_record(Some(&stored(5, "[9]", "[]")), 4, Some(&lineup)));
    // Same lineup (empty slots dropped), not faster.
    assert!(!should_update_dungeon_record(Some(&stored(5, "[1,2]", "[]")), 5, Some(&lineup)));
    assert!(!should_update_dungeon_record(Some(&stored(5, "[1,2]", "[]")), 7, Some(&lineup)));
    // Different lineup.
    assert!(should_update_dungeon_record(Some(&stored(5, "[2,1]", "[]")), 6, Some(&lineup)));
    // The stored list keeps its zeros, so it differs.
    assert!(should_update_dungeon_record(Some(&stored(5, "[1,0,2]", "[]")), 6, Some(&lineup)));
    // Unreadable stored lists count as empty.
    assert!(!should_update_dungeon_record(Some(&stored(5, "not json", "{}")), 6, None));
    assert!(lineup_replaces(5, 6, None, Some(vec![1]), None));
}

#[test]
fn cloth_defaults_to_one() {
    assert_eq!(record_cloth(None), 1);
    assert_eq!(record_cloth(Some(3)), 3);
}

#[test]
fn slot_equipment_grouping() {
    let rows = vec![(2, 10i64), (0, 11), (2, 12), (1, 13), (0, 14)];
    let g = group_equips(&rows);
    let got: Vec<(i32, Vec<i64>)> = g.iter().map(|e| (e.index, e.equip_uids.clone())).collect();
    assert_eq!(got, vec![(2, vec![10, 12]), (0, vec![11, 14]), (1, vec![13])]);
}

#[test]
fn slot_equipment_round_trip() {
    let g = vec![
        HeroGroupEquip { index: 3, equip_uids: vec![5, 6] },
        HeroGroupEquip { index: 1, equip_uids: vec![7] },
    ];
    let rows = equip_rows(&g);
    assert_eq!(rows, vec![(3, 5), (3, 6), (1, 7)]);
    let back = group_equips(&rows);
    let got: Vec<(i32, Vec<i64>)> = back.iter().map(|e| (e.index, e.equip_uids.clone())).collect();
    assert_eq!(got, vec![(3, vec![5, 6]), (1, vec![7])]);
}

#[test]
fn sort_ids_merge() {
    assert_eq!(merge_sort_ids(&vec![3, 1], &vec![1, 4, 4, 2]), vec![3, 1, 4, 2]);
    let once = merge_sort_ids(&vec![3, 1], &vec![5]);
    assert_eq!(merge_sort_ids(&once, &vec![5]), once);
    assert_eq!(merge_sort_ids(&vec![], &vec![]), Vec::<i32>::new());
}
