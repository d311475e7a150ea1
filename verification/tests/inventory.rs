use sonetto::game_config::{Equip, InsightItemConfig, PowerItemConfig};
use sonetto::inventory::{
    add_equipment, add_rewards, claim_batch, claim_plan, HeroGrant, equipment_locked, insight_item_expire_time, material_changes,
    power_item_expire_time, quantity_change_allowed, removal_allowed, unit_change_allowed, MailRewards,
};

#[test]
fn quantity_changes() {
    assert!(quantity_change_allowed(Some(5), -5));
    assert!(!quantity_change_allowed(Some(5), -6));
    assert!(!quantity_change_allowed(None, -1));
    assert!(quantity_change_allowed(None, 3));
    assert!(quantity_change_allowed(Some(-2), 0));
    assert!(unit_change_allowed(Some(3), -3));
    assert!(!unit_change_allowed(None, -1));
    // The summed stock is read as `as i32` reads it.
    assert!(!unit_change_allowed(Some(1i64 << 32), -1));
    assert!(removal_allowed(Some(10), 10));
    assert!(!removal_allowed(Some(9), 10));
    assert!(removal_allowed(None, 0));
    assert!(!removal_allowed(None, 1));
}

#[test]
fn power_item_expiry() {
    let t = vec![
        PowerItemConfig { id: 1, expire_type: 0, rare: 3 },
        PowerItemConfig { id: 2, expire_type: 1, rare: 3 },
        PowerItemConfig { id: 3, expire_type: 3, rare: 3 },
        PowerItemConfig { id: 4, expire_type: 4, rare: 3 },
    ];
    let now = 1_700_000_000_123i64;
    assert_eq!(power_item_expire_time(&t, 1, now), 0);
    assert_eq!(power_item_expire_time(&t, 2, now), 1_700_000_000 + 864_000);
    assert_eq!(power_item_expire_time(&t, 3, now), 1_700_000_000 + 864_000);
    assert_eq!(power_item_expire_time(&t, 4, now), 0);
    assert_eq!(power_item_expire_time(&t, 9, now), 0);
}

#[test]
fn insight_item_expiry() {
    let t = vec![InsightItemConfig { id: 7, expire_hours: 24, rare: 4 }];
    assert_eq!(insight_item_expire_time(&t, 7, 1_000_000_999), 1_000_000 + 86_400);
    assert_eq!(insight_item_expire_time(&t, 8, 1_000_000_999), 0);
    assert_eq!(insight_item_expire_time(&t, 7, 3_000_000_000_000), (3_000_000_000i64 + 86_400) as i32);
}

fn equip(id: i32, rare: i32, name: &str) -> Equip {
    Equip { id, rare, name_en: name.to_string() }
}

#[test]
fn new_equipment_locks_and_uids() {
    assert!(equipment_locked(5, "Good Night"));
    assert!(equipment_locked(4, "x"));
    assert!(!equipment_locked(3, "x"));
    assert!(!equipment_locked(5, "Gluttony"));
    assert!(!equipment_locked(4, "Greed"));
    assert!(!equipment_locked(5, "Enlighten"));
    let t = vec![equip(1000, 3, "a"), equip(1000, 5, "b"), equip(1001, 4, "Greed")];
    let g = add_equipment(&t, 1000, 3, Some(30000005)).unwrap();
    // The last row with the id counts.
    assert!(g.is_lock);
    assert_eq!(g.uids, vec![30000007, 30000008, 30000009]);
    assert_eq!((g.level, g.break_lv, g.refine_lv), (1, 0, 0));
    let first = add_equipment(&t, 1001, 1, None).unwrap();
    assert_eq!(first.uids, vec![30000001]);
    assert!(!first.is_lock);
    assert!(add_equipment(&t, 1002, 1, None).is_none());
    assert!(add_equipment(&t, 1000, 0, None).unwrap().uids.is_empty());
}

#[test]
fn mail_material_changes() {
    let mut total = MailRewards {
        items: vec![(140001, 2)],
        currencies: vec![],
        equips: vec![],
        heroes: vec![],
        power_items: vec![],
        insight_selectors: vec![],
    };
    let more = MailRewards {
        items: vec![(5, 1)],
        currencies: vec![(-1, 100)],
        equips: vec![(1000, 1)],
        heroes: vec![(3001, 1)],
        power_items: vec![(10, 2)],
        insight_selectors: vec![(24001, 1)],
    };
    add_rewards(&mut total, &more);
    assert_eq!(total.items, vec![(140001, 2), (5, 1)]);
    let m = material_changes(&total);
    assert_eq!(
        m,
        vec![(1, 140001, 2), (1, 5, 1), (2, u32::MAX, 100), (9, 1000, 1), (4, 3001, 1), (10, 10, 2), (24, 24001, 1)]
    );
}

fn rewards(items: Vec<(u32, i32)>, heroes: Vec<(u32, i32)>) -> MailRewards {
    MailRewards { items, currencies: vec![], equips: vec![], heroes, power_items: vec![], insight_selectors: vec![] }
}

#[test]
fn claiming_all_mails_creates_each_new_hero_once() {
    let mails = vec![
        (80007000, rewards(vec![(110101, 10)], vec![(3001, 1), (3002, 1)])),
        (80007001, MailRewards { currencies: vec![(5, 3000000)], ..rewards(vec![], vec![(3002, 1)]) }),
    ];
    let p = claim_plan(&mails, &vec![3001]);
    assert_eq!(p.incr_ids, vec![80007000, 80007001]);
    assert_eq!(p.totals.heroes, vec![(3001, 1), (3002, 1), (3002, 1)]);
    assert_eq!(p.heroes, vec![HeroGrant::Duplicate(3001), HeroGrant::Create(3002), HeroGrant::Duplicate(3002)]);
    assert_eq!(
        p.material_changes,
        vec![(1, 110101, 10), (2, 5, 3000000), (4, 3001, 1), (4, 3002, 1), (4, 3002, 1)]
    );
    let none = claim_plan(&vec![], &vec![]);
    assert!(none.incr_ids.is_empty() && none.material_changes.is_empty());
}

#[test]
fn a_second_batch_claim_grants_nothing() {
    let mails = vec![
        (80007000, 0, rewards(vec![(110101, 10)], vec![(3002, 1)])),
        (80007001, 1, rewards(vec![(110102, 5)], vec![])),
        (80007002, 0, rewards(vec![], vec![(3002, 1)])),
    ];
    let (first, states) = claim_batch(&mails, &vec![]);
    assert_eq!(first.incr_ids, vec![80007000, 80007002]);
    assert_eq!(first.heroes, vec![HeroGrant::Create(3002), HeroGrant::Duplicate(3002)]);
    assert_eq!(first.material_changes, vec![(1, 110101, 10), (4, 3002, 1), (4, 3002, 1)]);
    assert_eq!(states, vec![1, 1, 1]);
    let after: Vec<(i64, i32, MailRewards)> =
        mails.into_iter().zip(states).map(|((id, _, r), s)| (id, s, r)).collect();
    let (second, states2) = claim_batch(&after, &vec![3002]);
    assert!(second.incr_ids.is_empty());
    assert!(second.totals.items.is_empty() && second.totals.heroes.is_empty());
    assert!(second.heroes.is_empty() && second.material_changes.is_empty());
    assert_eq!(states2, vec![1, 1, 1]);
}
