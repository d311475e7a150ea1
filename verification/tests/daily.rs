use sonetto::game_config::{Character, StoreChargeGoods, StoreGoods};
use sonetto::sign_in::{
    activity101_bonus, activity101_day_states, claim_day, birthday_heroes, login_flags, monthly_charge_goods,
    monthly_store_goods, weekly_charge_goods, weekly_store_goods, LoginFlags,
};

#[test]
fn first_login_resets_everything() {
    let now = 1_700_000_000_000i64;
    let all = LoginFlags { new_day: true, new_week: true, new_month: true };
    assert_eq!(login_flags(None, now), all);
    assert_eq!(login_flags(Some(0), now), all);
    assert_eq!(login_flags(Some(-5), now), all);
}

#[test]
fn login_later_the_same_day() {
    let now = 1_700_000_000_000i64;
    assert_eq!(login_flags(Some(now - 60_000), now), LoginFlags { new_day: false, new_week: false, new_month: false });
}

#[test]
fn login_next_day_same_week_and_month() {
    let last = 1_699_920_000_000i64; // 2023-11-14 00:00 UTC, server day of 11-13
    let now = 1_700_000_000_000i64; // 2023-11-14 22:13 UTC
    assert_eq!(login_flags(Some(last), now), LoginFlags { new_day: true, new_week: false, new_month: false });
}

#[test]
fn login_in_a_new_month() {
    let last = 1_701_300_000_000i64; // 2023-11-29
    let now = 1_701_500_000_000i64; // 2023-12-02
    let f = login_flags(Some(last), now);
    assert!(f.new_day && f.new_month);
}

#[test]
fn goods_that_resets_clear() {
    let store = vec![
        StoreGoods { id: 1, refresh_time: 2 },
        StoreGoods { id: 2, refresh_time: 3 },
        StoreGoods { id: 3, refresh_time: 2 },
        StoreGoods { id: 4, refresh_time: 1 },
    ];
    assert_eq!(weekly_store_goods(&store), vec![1, 3]);
    assert_eq!(monthly_store_goods(&store), vec![2]);
    let charge = vec![
        StoreChargeGoods { id: 10, order: 40, belong_store_id: 1 },
        StoreChargeGoods { id: 11, order: 120, belong_store_id: 614 },
        StoreChargeGoods { id: 12, order: 120, belong_store_id: 615 },
        StoreChargeGoods { id: 13, order: 600, belong_store_id: 614 },
        StoreChargeGoods { id: 14, order: 601, belong_store_id: 614 },
    ];
    assert_eq!(weekly_charge_goods(&charge), vec![10]);
    assert_eq!(monthly_charge_goods(&charge), vec![11, 13]);
}

fn ch(id: i32, birthday: &str) -> Character {
    Character { id, skin_id: 0, rare: 1, equip_rec: String::new(), role_birthday: birthday.to_string() }
}

#[test]
fn birthdays_of_the_day() {
    let t = vec![ch(1, "10/23"), ch(2, "10/23/x"), ch(3, "3/14"), ch(4, ""), ch(5, "+10/023"), ch(6, "10 /23")];
    assert_eq!(birthday_heroes(&t, 10, 23), vec![1, 5]);
    assert_eq!(birthday_heroes(&t, 3, 14), vec![3]);
    assert!(birthday_heroes(&t, 1, 1).is_empty());
}

#[test]
fn seven_day_states() {
    let states = activity101_day_states(&vec![1, 3], 4);
    assert_eq!(states, vec![(1, 2), (2, 1), (3, 2), (4, 1), (5, 0), (6, 0), (7, 0)]);
    assert_eq!(activity101_day_states(&vec![], 0), (1..=7).map(|d| (d, 0)).collect::<Vec<_>>());
}

#[test]
fn a_day_is_rewarded_once() {
    let b = activity101_bonus(false).unwrap();
    assert_eq!(b.items, vec![(140001, 1)]);
    assert_eq!(b.material_changes, vec![(1, 140001, 1)]);
    assert!(activity101_bonus(true).is_none());
}

#[test]
fn claiming_a_day_twice_grants_its_bonus_once() {
    let claimed = vec![(12722, 1)];
    let (after, first) = claim_day(&claimed, 13108, 2);
    assert_eq!(after, vec![(12722, 1), (13108, 2)]);
    assert_eq!(first.unwrap().items, vec![(140001, 1)]);
    let (again, second) = claim_day(&after, 13108, 2);
    assert_eq!(again, after);
    assert!(second.is_none());
    let (other, third) = claim_day(&after, 12722, 2);
    assert_eq!(other.len(), 3);
    assert!(third.is_some());
}
