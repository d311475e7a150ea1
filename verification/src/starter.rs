//! The inventory a new account starts with: upgraded equipment, items,
//! power items and insight items, computed from the data tables.
use vstd::prelude::*;
use std::collections::HashMap;
use crate::game_config::{
    BgmSwitch, Episode,
    CurrencyConfig, Equip, GuideConfig, InsightItemConfig, ItemConfig, PowerItemConfig,
};
use crate::inventory::{equipment_locked, spec_equipment_locked};
use crate::time::trunc_div;
use crate::text::chars_of;

verus! {

broadcast use vstd::std_specs::hash::group_hash_axioms;

// ---------------------------------------------------------------------------
// Equipment
// ---------------------------------------------------------------------------

/// A piece of starter equipment: at level 60, break level 3, refine 5.
#[derive(Debug, Clone, Copy, PartialEq, Eq)]
pub struct StarterEquip {
    pub uid: i64,
    pub equip_id: i32,
    pub is_lock: bool,
}

pub const STARTER_EQUIP_LEVEL: i32 = 60;
pub const STARTER_EQUIP_BREAK: i32 = 3;
pub const STARTER_EQUIP_REFINE: i32 = 5;

/// Equipment of rarity 2 to 5 is handed out.
pub open spec fn is_starter_equip(e: Equip) -> bool {
    e.rare == 5 || e.rare == 4 || e.rare == 3 || e.rare == 2
}

/// The starter equipment rows, in table order.
pub open spec fn starter_equips(t: Seq<Equip>) -> Seq<Equip>
    decreases t.len(),
{
    if t.len() == 0 {
        Seq::empty()
    } else {
        let rest = starter_equips(t.drop_last());
        if is_starter_equip(t.last()) {
            rest.push(t.last())
        } else {
            rest
        }
    }
}

/// Piece `k` is the `k`-th starter row, numbered from `first_uid`.
pub open spec fn starter_piece(p: StarterEquip, e: Equip, uid: int) -> bool {
    &&& p.uid == uid
    &&& p.equip_id == e.id
    &&& p.is_lock == spec_equipment_locked(e.rare, e.name_en@)
}

/// The equipment a new account starts with.
pub struct StarterEquipment {
    pub pieces: Vec<StarterEquip>,
    /// For each equipment id, the uid of its first piece.
    pub first_uid_of: HashMap<i32, i64>,
}

/// How many pieces of equipment a new account gets: one per starter row.
pub fn starter_equip_count(t: &Vec<Equip>) -> (n: usize)
    ensures
        n == starter_equips(t@).len(),
{
    let mut n: usize = 0;
    let mut i: usize = 0;
    while i < t.len()
        invariant
            i <= t@.len(),
            n == starter_equips(t@.take(i as int)).len(),
            n <= i,
        decreases t@.len() - i,
    {
        assert(t@.take(i + 1).drop_last() =~= t@.take(i as int));
        let rare: i32 = t[i].rare;
        if rare == 5 || rare == 4 || rare == 3 || rare == 2 {
            n = n + 1;
        }
        i = i + 1;
    }
    assert(t@.take(t@.len() as int) =~= t@);
    n
}

/// The equipment of a new account, one piece per starter row with uids
/// counting up from `first_uid`, and for each equipment id the uid of its
/// first piece.
pub fn starter_equipment(t: &Vec<Equip>, first_uid: i64) -> (r: StarterEquipment)
    requires
        0 <= first_uid,
        first_uid + t@.len() <= i64::MAX,
    ensures
        r.pieces@.len() == starter_equips(t@).len(),
        forall|k: int|
            0 <= k < r.pieces@.len() ==> starter_piece(
                #[trigger] r.pieces@[k],
                starter_equips(t@)[k],
                first_uid + k,
            ),
        forall|id: i32| #[trigger]
            r.first_uid_of@.contains_key(id) <==> exists|k: int|
                0 <= k < r.pieces@.len() && r.pieces@[k].equip_id == id,
        forall|id: i32| #[trigger]
            r.first_uid_of@.contains_key(id) ==> exists|k: int|
                0 <= k < r.pieces@.len() && r.pieces@[k].equip_id == id && r.pieces@[k].uid
                    == r.first_uid_of@[id] && forall|j: int|
                    0 <= j < k ==> r.pieces@[j].equip_id != id,
{
    let mut pieces: Vec<StarterEquip> = Vec::new();
    let mut map: HashMap<i32, i64> = HashMap::new();
    let mut i: usize = 0;
    proof {
        lemma_starter_equips_len(t@);
    }
    while i < t.len()
        invariant
            i <= t@.len(),
            0 <= first_uid,
            first_uid + t@.len() <= i64::MAX,
            pieces@.len() == starter_equips(t@.take(i as int)).len(),
            pieces@.len() <= i,
            forall|k: int|
                0 <= k < pieces@.len() ==> starter_piece(
                    #[trigger] pieces@[k],
                    starter_equips(t@.take(i as int))[k],
                    first_uid + k,
                ),
            forall|id: i32| #[trigger]
                map@.contains_key(id) <==> exists|k: int|
                    0 <= k < pieces@.len() && pieces@[k].equip_id == id,
            forall|id: i32| #[trigger]
                map@.contains_key(id) ==> exists|k: int|
                    0 <= k < pieces@.len() && pieces@[k].equip_id == id && pieces@[k].uid
                        == map@[id] && forall|j: int| 0 <= j < k ==> pieces@[j].equip_id != id,
        decreases t@.len() - i,
    {
        let ghost before = t@.take(i as int);
        proof {
            assert(t@.take(i + 1).drop_last() =~= before);
            lemma_starter_equips_len(before);
        }
        let e = &t[i];
        if e.rare == 5 || e.rare == 4 || e.rare == 3 || e.rare == 2 {
            let uid: i64 = first_uid + pieces.len() as i64;
            let p = StarterEquip {
                uid,
                equip_id: e.id,
                is_lock: equipment_locked(e.rare, e.name_en.as_str()),
            };
            let ghost old_pieces = pieces@;
            let ghost old_map = map@;
            pieces.push(p);
            let known = map.contains_key(&e.id);
            if !known {
                map.insert(e.id, uid);
            }
            proof {
                let n = old_pieces.len() as int;
                assert(pieces@[n] == p);
                assert(t@.take(i + 1).last() == t@[i as int]);
                assert(starter_equips(t@.take(i + 1)) == starter_equips(before).push(t@[i as int]));
                assert forall|k: int| 0 <= k < pieces@.len() implies starter_piece(
                    #[trigger] pieces@[k],
                    starter_equips(t@.take(i + 1))[k],
                    first_uid + k,
                ) by {
                    if k < n {
                        assert(pieces@[k] == old_pieces[k]);
                    }
                }
                assert forall|id: i32| #[trigger] map@.contains_key(id) <==> exists|k: int|
                    0 <= k < pieces@.len() && pieces@[k].equip_id == id by {
                    if exists|k: int| 0 <= k < pieces@.len() && pieces@[k].equip_id == id {
                        let k = choose|k: int| 0 <= k < pieces@.len() && pieces@[k].equip_id == id;
                        if k < n {
                            assert(old_pieces[k].equip_id == id);
                        }
                    }
                    if old_map.contains_key(id) {
                        let k = choose|k: int| 0 <= k < n && old_pieces[k].equip_id == id;
                        assert(pieces@[k].equip_id == id);
                    }
                }
                assert forall|id: i32| #[trigger] map@.contains_key(id) implies exists|k: int|
                    0 <= k < pieces@.len() && pieces@[k].equip_id == id && pieces@[k].uid
                        == map@[id] && forall|j: int| 0 <= j < k ==> pieces@[j].equip_id != id by {
                    if old_map.contains_key(id) {
                        let k = choose|k: int|
                            0 <= k < n && old_pieces[k].equip_id == id && old_pieces[k].uid
                                == old_map[id] && forall|j: int|
                                0 <= j < k ==> old_pieces[j].equip_id != id;
                        assert(pieces@[k] == old_pieces[k]);
                        assert forall|j: int| 0 <= j < k implies pieces@[j].equip_id != id by {
                            assert(pieces@[j] == old_pieces[j]);
                        }
                    } else {
                        assert(id == e.id);
                        assert forall|j: int| 0 <= j < n implies pieces@[j].equip_id != id by {
                            assert(pieces@[j] == old_pieces[j]);
                            if old_pieces[j].equip_id == id {
                                assert(old_map.contains_key(id));
                            }
                        }
                    }
                }
            }
        }
        i = i + 1;
    }
    assert(t@.take(t@.len() as int) =~= t@);
    let ghost m = map@;
    let ghost pieces_view = pieces@;
    assert(forall|id: i32| #[trigger]
        m.contains_key(id) <==> exists|k: int|
            0 <= k < pieces_view.len() && pieces_view[k].equip_id == id);
    let r = StarterEquipment { pieces, first_uid_of: map };
    assert(r.first_uid_of@ == m);
    assert(r.pieces@ == pieces_view);
    assert(forall|id: i32| #[trigger]
        r.first_uid_of@.contains_key(id) <==> exists|k: int|
            0 <= k < r.pieces@.len() && r.pieces@[k].equip_id == id);
    r
}

proof fn lemma_starter_equips_len(t: Seq<Equip>)
    ensures
        starter_equips(t).len() <= t.len(),
    decreases t.len(),
{
    if t.len() > 0 {
        lemma_starter_equips_len(t.drop_last());
    }
}

// ---------------------------------------------------------------------------
// Items
// ---------------------------------------------------------------------------

/// How many of a stackable item a new account gets: by sub-type, with one
/// item fixed at 5.
pub open spec fn starter_quantity(item: ItemConfig) -> i32 {
    if item.id == 481002 {
        5
    } else if item.sub_type == 13 || item.sub_type == 66 || item.sub_type == 70 {
        0
    } else if item.sub_type == 48 {
        10
    } else if item.sub_type == 50 {
        1
    } else {
        100
    }
}

/// Shown items that never expire and are (or are not) stackable.
pub open spec fn is_starter_item(item: ItemConfig, stackable: bool) -> bool {
    item.is_show == 1 && item.is_stackable == (if stackable {
        1i32
    } else {
        0i32
    }) && item.expire_time@.len() == 0
}

/// `(item id, quantity)` of the starter items of one kind, in table order.
pub open spec fn starter_item_rows(t: Seq<ItemConfig>, stackable: bool) -> Seq<(i32, i32)>
    decreases t.len(),
{
    if t.len() == 0 {
        Seq::empty()
    } else {
        let rest = starter_item_rows(t.drop_last(), stackable);
        if is_starter_item(t.last(), stackable) {
            rest.push(
                (
                    t.last().id,
                    if stackable {
                        starter_quantity(t.last())
                    } else {
                        1
                    },
                ),
            )
        } else {
            rest
        }
    }
}

/// How many of a stackable starter item a new account gets, by sub-type:
/// item 481002 gets 5; any other of sub-type 13, 66 (wilderness blocks) or
/// 70 starts at none, of sub-type 48 at 10, of sub-type 50 at one, and of
/// any other sub-type at 100.
pub proof fn lemma_starter_quantity_by_sub_type(item: ItemConfig)
    ensures
        item.id == 481002 ==> starter_quantity(item) == 5,
        item.id != 481002 && (item.sub_type == 13 || item.sub_type == 66 || item.sub_type == 70)
            ==> starter_quantity(item) == 0,
        item.id != 481002 && item.sub_type == 48 ==> starter_quantity(item) == 10,
        item.id != 481002 && item.sub_type == 50 ==> starter_quantity(item) == 1,
        item.id != 481002 && item.sub_type != 13 && item.sub_type != 48 && item.sub_type != 50
            && item.sub_type != 66 && item.sub_type != 70 ==> starter_quantity(item) == 100,
{
}

/// Every shown, stackable, non-expiring item of the table is among the
/// stackable starter rows, with its starting quantity; every shown,
/// non-stackable, non-expiring one is among the others, once.
pub proof fn lemma_starter_rows_hold_items(t: Seq<ItemConfig>, k: int)
    requires
        0 <= k < t.len(),
    ensures
        is_starter_item(t[k], true) ==> starter_item_rows(t, true).contains((t[k].id, starter_quantity(t[k]))),
        is_starter_item(t[k], false) ==> starter_item_rows(t, false).contains((t[k].id, 1i32)),
    decreases t.len(),
{
    let p = t.drop_last();
    if k == t.len() - 1 {
        let a = starter_item_rows(p, true);
        let b = starter_item_rows(p, false);
        if is_starter_item(t[k], true) {
            assert(starter_item_rows(t, true)[a.len() as int] == (t[k].id, starter_quantity(t[k])));
        }
        if is_starter_item(t[k], false) {
            assert(starter_item_rows(t, false)[b.len() as int] == (t[k].id, 1i32));
        }
    } else {
        lemma_starter_rows_hold_items(p, k);
        assert(p[k] == t[k]);
        if is_starter_item(t[k], true) {
            let a = starter_item_rows(p, true);
            let j = choose|j: int| 0 <= j < a.len() && a[j] == (t[k].id, starter_quantity(t[k]));
            assert(starter_item_rows(t, true)[j] == a[j]);
        }
        if is_starter_item(t[k], false) {
            let b = starter_item_rows(p, false);
            let j = choose|j: int| 0 <= j < b.len() && b[j] == (t[k].id, 1i32);
            assert(starter_item_rows(t, false)[j] == b[j]);
        }
    }
}

fn item_rows(t: &Vec<ItemConfig>, stackable: bool) -> (r: Vec<(i32, i32)>)
    ensures
        r@ == starter_item_rows(t@, stackable),
{
    let mut r: Vec<(i32, i32)> = Vec::new();
    let flag: i32 = if stackable {
        1
    } else {
        0
    };
    let mut i: usize = 0;
    while i < t.len()
        invariant
            i <= t@.len(),
            flag == (if stackable {
                1i32
            } else {
                0i32
            }),
            r@ == starter_item_rows(t@.take(i as int), stackable),
        decreases t@.len() - i,
    {
        assert(t@.take(i + 1).drop_last() =~= t@.take(i as int));
        assert(t@.take(i + 1).last() == t@[i as int]);
        let it = &t[i];
        let no_expiry = chars_of(it.expire_time.as_str()).len() == 0;
        if it.is_show == 1 && it.is_stackable == flag && no_expiry {
            let q: i32 = if !stackable {
                1
            } else if it.id == 481002 {
                5
            } else if it.sub_type == 13 || it.sub_type == 66 || it.sub_type == 70 {
                0
            } else if it.sub_type == 48 {
                10
            } else if it.sub_type == 50 {
                1
            } else {
                100
            };
            r.push((it.id, q));
        }
        i = i + 1;
    }
    assert(t@.take(t@.len() as int) =~= t@);
    r
}

/// The items of a new account: the stackable ones first, then the others
/// (one each), each kind in table order.
pub fn starter_items(t: &Vec<ItemConfig>) -> (r: Vec<(i32, i32)>)
    ensures
        r@ == starter_item_rows(t@, true) + starter_item_rows(t@, false),
{
    let mut a = item_rows(t, true);
    let b = item_rows(t, false);
    let ghost sa = a@;
    let mut i: usize = 0;
    while i < b.len()
        invariant
            i <= b@.len(),
            a@ == sa + b@.take(i as int),
        decreases b@.len() - i,
    {
        a.push(b[i]);
        i = i + 1;
        assert(b@.take(i as int) =~= b@.take(i - 1).push(b@[i - 1]));
    }
    assert(b@.take(b@.len() as int) =~= b@);
    a
}

/// The power items of a new account: those of rarity 3 or more, in table
/// order.
pub open spec fn starter_power_ids(t: Seq<PowerItemConfig>) -> Seq<i32>
    decreases t.len(),
{
    if t.len() == 0 {
        Seq::empty()
    } else {
        let rest = starter_power_ids(t.drop_last());
        if t.last().rare >= 3 {
            rest.push(t.last().id)
        } else {
            rest
        }
    }
}

pub fn starter_power_items(t: &Vec<PowerItemConfig>) -> (r: Vec<i32>)
    ensures
        r@ == starter_power_ids(t@),
{
    let mut r: Vec<i32> = Vec::new();
    let mut i: usize = 0;
    while i < t.len()
        invariant
            i <= t@.len(),
            r@ == starter_power_ids(t@.take(i as int)),
        decreases t@.len() - i,
    {
        assert(t@.take(i + 1).drop_last() =~= t@.take(i as int));
        if t[i].rare >= 3 {
            r.push(t[i].id);
        }
        i = i + 1;
    }
    assert(t@.take(t@.len() as int) =~= t@);
    r
}

/// The insight items of a new account: those of rarity 4 or more, in table
/// order, each with its expiry in seconds (`now_ms` plus its hours, over
/// 1000 as Rust divides).
pub open spec fn starter_insight_rows(t: Seq<InsightItemConfig>, now_ms: i64) -> Seq<(i32, i64)>
    decreases t.len(),
{
    if t.len() == 0 {
        Seq::empty()
    } else {
        let rest = starter_insight_rows(t.drop_last(), now_ms);
        if t.last().rare >= 4 {
            rest.push((t.last().id, trunc_div(now_ms + t.last().expire_hours * 3_600_000, 1000) as i64))
        } else {
            rest
        }
    }
}

pub fn starter_insight_items(t: &Vec<InsightItemConfig>, now_ms: i64) -> (r: Vec<(i32, i64)>)
    requires
        0 <= now_ms <= 8_000_000_000_000_000,
    ensures
        r@ == starter_insight_rows(t@, now_ms),
{
    let mut r: Vec<(i32, i64)> = Vec::new();
    let mut i: usize = 0;
    while i < t.len()
        invariant
            i <= t@.len(),
            0 <= now_ms <= 8_000_000_000_000_000,
            r@ == starter_insight_rows(t@.take(i as int), now_ms),
        decreases t@.len() - i,
    {
        assert(t@.take(i + 1).drop_last() =~= t@.take(i as int));
        let it = t[i];
        if it.rare >= 4 {
            let at: i64 = now_ms + it.expire_hours as i64 * 3_600_000;
            r.push((it.id, at / 1000));
        }
        i = i + 1;
    }
    assert(t@.take(t@.len() as int) =~= t@);
    r
}

// ---------------------------------------------------------------------------
// Currencies and guides
// ---------------------------------------------------------------------------

/// How much of a currency a new account holds: 3 000 000 of a limited
/// currency, 100 of an unlimited one, and 240 of currency 4.
pub open spec fn starter_amount(c: CurrencyConfig) -> i32 {
    if c.id == 4 {
        240
    } else if c.max_limit != 0 {
        3_000_000
    } else {
        100
    }
}

/// `(currency id, amount)` for every currency of the table, in order.
pub fn starter_currencies(t: &Vec<CurrencyConfig>) -> (r: Vec<(i32, i32)>)
    ensures
        r@.len() == t@.len(),
        forall|k: int|
            0 <= k < t@.len() ==> #[trigger] r@[k] == (t@[k].id, starter_amount(t@[k])),
{
    let mut r: Vec<(i32, i32)> = Vec::new();
    let mut i: usize = 0;
    while i < t.len()
        invariant
            i <= t@.len(),
            r@.len() == i,
            forall|k: int| 0 <= k < i ==> #[trigger] r@[k] == (t@[k].id, starter_amount(t@[k])),
        decreases t@.len() - i,
    {
        let c = t[i];
        let q: i32 = if c.id == 4 {
            240
        } else if c.max_limit != 0 {
            3_000_000
        } else {
            100
        };
        r.push((c.id, q));
        i = i + 1;
    }
    r
}

/// The guides a new account has finished: the online ones, in order.
pub open spec fn starter_guide_ids(t: Seq<GuideConfig>) -> Seq<i32>
    decreases t.len(),
{
    if t.len() == 0 {
        Seq::empty()
    } else {
        let rest = starter_guide_ids(t.drop_last());
        if t.last().is_online == 1 {
            rest.push(t.last().id)
        } else {
            rest
        }
    }
}

/// The step a finished guide is stored at.
pub const GUIDE_FINISHED_STEP: i32 = -1;

pub fn starter_guides(t: &Vec<GuideConfig>) -> (r: Vec<i32>)
    ensures
        r@ == starter_guide_ids(t@),
{
    let mut r: Vec<i32> = Vec::new();
    let mut i: usize = 0;
    while i < t.len()
        invariant
            i <= t@.len(),
            r@ == starter_guide_ids(t@.take(i as int)),
        decreases t@.len() - i,
    {
        assert(t@.take(i + 1).drop_last() =~= t@.take(i as int));
        if t[i].is_online == 1 {
            r.push(t[i].id);
        }
        i = i + 1;
    }
    assert(t@.take(t@.len() as int) =~= t@);
    r
}

// ---------------------------------------------------------------------------
// Dungeons, music and the welcome mail
// ---------------------------------------------------------------------------

/// The stars a new account has on an episode: 2 where it has a battle, 1
/// where it has none.
pub open spec fn starter_star(e: Episode) -> i32 {
    if e.battle_id != 0 {
        2
    } else {
        1
    }
}

/// `(chapter, episode, stars)` for every episode of the table, in order.
pub fn starter_dungeons(t: &Vec<Episode>) -> (r: Vec<(i32, i32, i32)>)
    ensures
        r@.len() == t@.len(),
        forall|k: int|
            0 <= k < t@.len() ==> #[trigger] r@[k] == (t@[k].chapter_id, t@[k].id, starter_star(t@[k])),
{
    let mut r: Vec<(i32, i32, i32)> = Vec::new();
    let mut i: usize = 0;
    while i < t.len()
        invariant
            i <= t@.len(),
            r@.len() == i,
            forall|k: int|
                0 <= k < i ==> #[trigger] r@[k] == (t@[k].chapter_id, t@[k].id, starter_star(t@[k])),
        decreases t@.len() - i,
    {
        let e = t[i];
        let star: i32 = if e.battle_id != 0 {
            2
        } else {
            1
        };
        r.push((e.chapter_id, e.id, star));
        i = i + 1;
    }
    r
}

/// The track a new account plays, and its one favourite.
pub const DEFAULT_BGM_ID: i32 = 2204;

/// `(track, favourite)` for every track of the table, in order: all
/// unlocked, the default track the favourite.
pub fn starter_bgms(t: &Vec<BgmSwitch>) -> (r: Vec<(i32, bool)>)
    ensures
        r@.len() == t@.len(),
        forall|k: int| 0 <= k < t@.len() ==> #[trigger] r@[k] == (t@[k].id, t@[k].id == DEFAULT_BGM_ID),
{
    let mut r: Vec<(i32, bool)> = Vec::new();
    let mut i: usize = 0;
    while i < t.len()
        invariant
            i <= t@.len(),
            r@.len() == i,
            forall|k: int| 0 <= k < i ==> #[trigger] r@[k] == (t@[k].id, t@[k].id == DEFAULT_BGM_ID),
        decreases t@.len() - i,
    {
        let id: i32 = t[i].id;
        r.push((id, id == DEFAULT_BGM_ID));
        i = i + 1;
    }
    r
}

/// The mail number of a new account's welcome mail: 80000000 plus a
/// thousand per unit of the account's uid.
pub fn welcome_mail_incr_id(uid: i64) -> (r: i64)
    requires
        i64::MIN <= uid * 1000 <= i64::MAX,
        80_000_000 + uid * 1000 <= i64::MAX,
    ensures
        r == 80_000_000 + uid * 1000,
{
    80_000_000 + uid * 1000
}

} // verus!
