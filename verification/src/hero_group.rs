//! Hero groups: the equipment of a group's slots as stored (one row per
//! piece) and as shown (one entry per slot), and the order of a snapshot's
//! sub-groups.
use vstd::prelude::*;
use crate::models::HeroGroupEquip;
use crate::json::{Json, int_or, ints_of, spec_as_array, spec_get, spec_ints};

verus! {

// ---------------------------------------------------------------------------
// Slot equipment
// ---------------------------------------------------------------------------

/// The equipment uids of slot `index`, in row order.
pub open spec fn uids_at(rows: Seq<(i32, i64)>, index: i32) -> Seq<i64>
    decreases rows.len(),
{
    if rows.len() == 0 {
        Seq::empty()
    } else {
        let rest = uids_at(rows.drop_last(), index);
        if rows.last().0 == index {
            rest.push(rows.last().1)
        } else {
            rest
        }
    }
}

/// The slots that rows mention, each once, in order of first mention.
pub open spec fn slots_of(rows: Seq<(i32, i64)>) -> Seq<i32>
    decreases rows.len(),
{
    if rows.len() == 0 {
        Seq::empty()
    } else {
        let rest = slots_of(rows.drop_last());
        if rest.contains(rows.last().0) {
            rest
        } else {
            rest.push(rows.last().0)
        }
    }
}

/// One entry per slot that the rows mention, holding the slot's uids.
pub open spec fn grouped(g: Seq<HeroGroupEquip>, rows: Seq<(i32, i64)>) -> bool {
    &&& g.len() == slots_of(rows).len()
    &&& forall|k: int|
        0 <= k < g.len() ==> (#[trigger] g[k]).index == slots_of(rows)[k] && g[k].equip_uids@
            == uids_at(rows, slots_of(rows)[k])
}

fn contains_slot(v: &Vec<i32>, x: i32) -> (r: bool)
    ensures
        r == v@.contains(x),
{
    let mut i: usize = 0;
    while i < v.len()
        invariant
            i <= v@.len(),
            forall|j: int| 0 <= j < i ==> v@[j] != x,
        decreases v@.len() - i,
    {
        if v[i] == x {
            assert(v@[i as int] == x);
            return true;
        }
        i = i + 1;
    }
    false
}

fn slots(rows: &Vec<(i32, i64)>) -> (r: Vec<i32>)
    ensures
        r@ == slots_of(rows@),
{
    let mut r: Vec<i32> = Vec::new();
    let mut i: usize = 0;
    while i < rows.len()
        invariant
            i <= rows@.len(),
            r@ == slots_of(rows@.take(i as int)),
        decreases rows@.len() - i,
    {
        assert(rows@.take(i + 1).drop_last() =~= rows@.take(i as int));
        let s = rows[i].0;
        if !contains_slot(&r, s) {
            r.push(s);
        }
        i = i + 1;
    }
    assert(rows@.take(rows@.len() as int) =~= rows@);
    r
}

fn uids_for(rows: &Vec<(i32, i64)>, index: i32) -> (r: Vec<i64>)
    ensures
        r@ == uids_at(rows@, index),
{
    let mut r: Vec<i64> = Vec::new();
    let mut i: usize = 0;
    while i < rows.len()
        invariant
            i <= rows@.len(),
            r@ == uids_at(rows@.take(i as int), index),
        decreases rows@.len() - i,
    {
        assert(rows@.take(i + 1).drop_last() =~= rows@.take(i as int));
        if rows[i].0 == index {
            r.push(rows[i].1);
        }
        i = i + 1;
    }
    assert(rows@.take(rows@.len() as int) =~= rows@);
    r
}

/// The slots of a group from its stored rows `(slot, equipment uid)`: one
/// entry per slot, slots in order of first mention, uids in row order.
pub fn group_equips(rows: &Vec<(i32, i64)>) -> (g: Vec<HeroGroupEquip>)
    ensures
        grouped(g@, rows@),
{
    let ss = slots(rows);
    let mut g: Vec<HeroGroupEquip> = Vec::new();
    let mut k: usize = 0;
    while k < ss.len()
        invariant
            ss@ == slots_of(rows@),
            k <= ss@.len(),
            g@.len() == k,
            forall|j: int|
                0 <= j < k ==> (#[trigger] g@[j]).index == ss@[j] && g@[j].equip_uids@ == uids_at(
                    rows@,
                    ss@[j],
                ),
        decreases ss@.len() - k,
    {
        let index = ss[k];
        let uids = uids_for(rows, index);
        g.push(HeroGroupEquip { index, equip_uids: uids });
        k = k + 1;
    }
    g
}

/// The rows that store a group's slots: each slot's uids in order, slot by
/// slot.
pub open spec fn flat_rows(g: Seq<HeroGroupEquip>) -> Seq<(i32, i64)>
    decreases g.len(),
{
    if g.len() == 0 {
        Seq::empty()
    } else {
        flat_rows(g.drop_last()) + block(g.last().index, g.last().equip_uids@)
    }
}

pub fn equip_rows(g: &Vec<HeroGroupEquip>) -> (rows: Vec<(i32, i64)>)
    ensures
        rows@ == flat_rows(g@),
{
    let mut rows: Vec<(i32, i64)> = Vec::new();
    let mut k: usize = 0;
    while k < g.len()
        invariant
            k <= g@.len(),
            rows@ == flat_rows(g@.take(k as int)),
        decreases g@.len() - k,
    {
        assert(g@.take(k + 1).drop_last() =~= g@.take(k as int));
        let e = &g[k];
        let ghost start = rows@;
        let mut i: usize = 0;
        while i < e.equip_uids.len()
            invariant
                i <= e.equip_uids@.len(),
                rows@ == start + Seq::new(i as nat, |j: int| (e.index, e.equip_uids@[j])),
            decreases e.equip_uids@.len() - i,
        {
            rows.push((e.index, e.equip_uids[i]));
            i = i + 1;
            assert(Seq::new(i as nat, |j: int| (e.index, e.equip_uids@[j])) =~= Seq::new(
                (i - 1) as nat,
                |j: int| (e.index, e.equip_uids@[j]),
            ).push((e.index, e.equip_uids@[i - 1])));
        }
        k = k + 1;
    }
    assert(g@.take(g@.len() as int) =~= g@);
    rows
}

pub open spec fn block(x: i32, u: Seq<i64>) -> Seq<(i32, i64)> {
    Seq::new(u.len(), |i: int| (x, u[i]))
}

pub open spec fn slot_indexes(g: Seq<HeroGroupEquip>) -> Seq<i32> {
    Seq::new(g.len(), |k: int| g[k].index)
}

/// A slot that no row mentions holds nothing.
proof fn lemma_unmentioned(rows: Seq<(i32, i64)>, x: i32)
    requires
        !slots_of(rows).contains(x),
    ensures
        uids_at(rows, x) == Seq::<i64>::empty(),
    decreases rows.len(),
{
    if rows.len() > 0 {
        let p = rows.drop_last();
        let sp = slots_of(p);
        if sp.contains(x) {
            let j = choose|j: int| 0 <= j < sp.len() && sp[j] == x;
            if !sp.contains(rows.last().0) {
                assert(sp.push(rows.last().0)[j] == x);
            }
        }
        if !sp.contains(rows.last().0) {
            assert(sp.push(rows.last().0)[sp.len() as int] == rows.last().0);
        } else {
            assert(rows.last().0 != x);
        }
        lemma_unmentioned(p, x);
    }
}

/// Appending the rows of one slot.
proof fn lemma_append_block(a: Seq<(i32, i64)>, x: i32, u: Seq<i64>)
    requires
        u.len() > 0,
        !slots_of(a).contains(x),
    ensures
        slots_of(a + block(x, u)) == slots_of(a).push(x),
        forall|y: i32| #[trigger] uids_at(a + block(x, u), y) == uids_at(a, y) + (if y == x {
            u
        } else {
            Seq::empty()
        }),
    decreases u.len(),
{
    let b = block(x, u);
    let ab = a + b;
    if u.len() == 1 {
        assert(ab.drop_last() =~= a);
        assert(ab.last() == (x, u[0]));
        assert forall|y: i32| #[trigger] uids_at(ab, y) == uids_at(a, y) + (if y == x {
            u
        } else {
            Seq::empty()
        }) by {
            if y == x {
                assert(u =~= seq![u[0]]);
                assert(uids_at(a, y).push(u[0]) =~= uids_at(a, y) + u);
            } else {
                assert(uids_at(a, y) + Seq::<i64>::empty() =~= uids_at(a, y));
            }
        }
    } else {
        let u2 = u.drop_last();
        lemma_append_block(a, x, u2);
        assert(ab.drop_last() =~= a + block(x, u2));
        assert(ab.last() == (x, u.last()));
        let s2 = slots_of(a).push(x);
        assert(s2[s2.len() - 1] == x);
        assert(s2.contains(x));
        assert forall|y: i32| #[trigger] uids_at(ab, y) == uids_at(a, y) + (if y == x {
            u
        } else {
            Seq::empty()
        }) by {
            let t = uids_at(a + block(x, u2), y);
            assert(t == uids_at(a, y) + (if y == x {
                u2
            } else {
                Seq::empty()
            }));
            assert(uids_at(ab, y) == (if y == x {
                t.push(u.last())
            } else {
                t
            }));
            if y == x {
                assert((uids_at(a, y) + u2).push(u.last()) =~= uids_at(a, y) + u);
            }
        }
    }
}

/// What the stored rows of a group give back: the same slots in the same
/// order with the same equipment, where the group names each slot once and
/// no slot is empty.
pub proof fn lemma_equip_rows_round_trip(g: Seq<HeroGroupEquip>)
    requires
        forall|i: int, j: int|
            0 <= i < j < g.len() ==> (#[trigger] g[i]).index != (#[trigger] g[j]).index,
        forall|k: int| 0 <= k < g.len() ==> (#[trigger] g[k]).equip_uids@.len() > 0,
    ensures
        grouped(g, flat_rows(g)),
    decreases g.len(),
{
    lemma_flat_rows_slots(g);
}

proof fn lemma_flat_rows_slots(g: Seq<HeroGroupEquip>)
    requires
        forall|i: int, j: int|
            0 <= i < j < g.len() ==> (#[trigger] g[i]).index != (#[trigger] g[j]).index,
        forall|k: int| 0 <= k < g.len() ==> (#[trigger] g[k]).equip_uids@.len() > 0,
    ensures
        slots_of(flat_rows(g)) == slot_indexes(g),
        forall|k: int|
            0 <= k < g.len() ==> uids_at(flat_rows(g), #[trigger] g[k].index) == g[k].equip_uids@,
    decreases g.len(),
{
    if g.len() == 0 {
        assert(slot_indexes(g) =~= Seq::<i32>::empty());
    } else {
        let p = g.drop_last();
        let e = g.last();
        lemma_flat_rows_slots(p);
        let a = flat_rows(p);
        assert(flat_rows(g) == a + block(e.index, e.equip_uids@));
        assert(!slots_of(a).contains(e.index)) by {
            if slots_of(a).contains(e.index) {
                let j = choose|j: int| 0 <= j < slots_of(a).len() && slots_of(a)[j] == e.index;
                assert(p[j].index == e.index);
                assert(g[j].index == g[g.len() - 1].index);
            }
        }
        assert(g[g.len() - 1].equip_uids@.len() > 0);
        lemma_append_block(a, e.index, e.equip_uids@);
        assert(slot_indexes(g) =~= slot_indexes(p).push(e.index));
        assert forall|k: int| 0 <= k < g.len() implies uids_at(
            flat_rows(g),
            #[trigger] g[k].index,
        ) == g[k].equip_uids@ by {
            if k < g.len() - 1 {
                assert(g[k] == p[k]);
                assert(g[k].index != g[g.len() - 1].index);
                assert(uids_at(a, p[k].index) + Seq::<i64>::empty() =~= uids_at(a, p[k].index));
            } else {
                lemma_unmentioned(a, e.index);
                assert(Seq::<i64>::empty() + e.equip_uids@ =~= e.equip_uids@);
            }
        }
    }
}

// ---------------------------------------------------------------------------
// Sub-group order of a snapshot
// ---------------------------------------------------------------------------

/// The stored order with the new ids that it lacks added at the end, in
/// their order.
pub open spec fn merged(existing: Seq<i32>, new: Seq<i32>) -> Seq<i32>
    decreases new.len(),
{
    if new.len() == 0 {
        existing
    } else {
        let m = merged(existing, new.drop_last());
        if m.contains(new.last()) {
            m
        } else {
            m.push(new.last())
        }
    }
}

/// Merges a snapshot's new sub-group order into the stored one.
pub fn merge_sort_ids(existing: &Vec<i32>, new: &Vec<i32>) -> (r: Vec<i32>)
    ensures
        r@ == merged(existing@, new@),
{
    let mut r: Vec<i32> = Vec::new();
    let mut i: usize = 0;
    while i < existing.len()
        invariant
            i <= existing@.len(),
            r@ == existing@.take(i as int),
        decreases existing@.len() - i,
    {
        r.push(existing[i]);
        i = i + 1;
        assert(existing@.take(i as int) =~= existing@.take(i - 1).push(existing@[i - 1]));
    }
    assert(existing@.take(existing@.len() as int) =~= existing@);
    let mut j: usize = 0;
    while j < new.len()
        invariant
            j <= new@.len(),
            r@ == merged(existing@, new@.take(j as int)),
        decreases new@.len() - j,
    {
        assert(new@.take(j + 1).drop_last() =~= new@.take(j as int));
        if !contains_slot(&r, new[j]) {
            r.push(new[j]);
        }
        j = j + 1;
    }
    assert(new@.take(new@.len() as int) =~= new@);
    r
}

/// Merging keeps the stored order as it was, adds every new id, adds
/// nothing else, and adds no id twice.
pub proof fn lemma_merge_sort_ids(existing: Seq<i32>, new: Seq<i32>)
    ensures
        merged(existing, new).len() >= existing.len(),
        merged(existing, new).subrange(0, existing.len() as int) == existing,
        forall|x: i32| #[trigger] new.contains(x) ==> merged(existing, new).contains(x),
        forall|x: i32|
            #[trigger] merged(existing, new).contains(x) ==> existing.contains(x) || new.contains(
                x,
            ),
        existing.no_duplicates() ==> merged(existing, new).no_duplicates(),
    decreases new.len(),
{
    if new.len() > 0 {
        let p = new.drop_last();
        lemma_merge_sort_ids(existing, p);
        let m = merged(existing, p);
        assert forall|x: i32| #[trigger] new.contains(x) implies merged(existing, new).contains(x) by {
            if x != new.last() {
                let i = choose|i: int| 0 <= i < new.len() && new[i] == x;
                assert(p[i] == x);
                assert(p.contains(x));
                assert(m.contains(x));
                let j = choose|j: int| 0 <= j < m.len() && m[j] == x;
                if !m.contains(new.last()) {
                    assert(m.push(new.last())[j] == x);
                }
            } else if !m.contains(new.last()) {
                assert(m.push(new.last())[m.len() as int] == x);
            }
        }
        assert forall|x: i32| #[trigger] merged(existing, new).contains(x) implies existing.contains(
            x,
        ) || new.contains(x) by {
            let mm = merged(existing, new);
            let j = choose|j: int| 0 <= j < mm.len() && mm[j] == x;
            if j < m.len() {
                assert(m[j] == x);
                assert(m.contains(x));
                if p.contains(x) {
                    let i = choose|i: int| 0 <= i < p.len() && p[i] == x;
                    assert(new[i] == x);
                }
            } else {
                assert(new[new.len() - 1] == x);
            }
        }
        if !m.contains(new.last()) {
            assert(m.push(new.last()).subrange(0, existing.len() as int) =~= m.subrange(
                0,
                existing.len() as int,
            ));
        }
    }
}

/// Merging the same new order twice changes nothing the second time.
pub proof fn lemma_merge_idempotent(existing: Seq<i32>, new: Seq<i32>)
    ensures
        merged(merged(existing, new), new) == merged(existing, new),
{
    lemma_merge_sort_ids(existing, new);
    lemma_merge_absorbs(merged(existing, new), new);
}

/// Merging ids that are all present already changes nothing.
pub proof fn lemma_merge_absorbs(base: Seq<i32>, new: Seq<i32>)
    requires
        forall|x: i32| #[trigger] new.contains(x) ==> base.contains(x),
    ensures
        merged(base, new) == base,
    decreases new.len(),
{
    if new.len() > 0 {
        let p = new.drop_last();
        assert forall|x: i32| #[trigger] p.contains(x) implies base.contains(x) by {
            let i = choose|i: int| 0 <= i < p.len() && p[i] == x;
            assert(new[i] == x);
            assert(new.contains(x));
        }
        lemma_merge_absorbs(base, p);
        assert(new[new.len() - 1] == new.last());
        assert(new.contains(new.last()));
    }
}

// ---------------------------------------------------------------------------
// Slot equipment as the starter assets write it
// ---------------------------------------------------------------------------

/// The equipment uids that an asset's slot entry lists under `equipUid`
/// (its integers, in order), or none.
pub open spec fn asset_slot_uids(e: Json) -> Seq<i64> {
    match spec_as_array(spec_get(e, "equipUid"@)) {
        Some(a) => spec_ints(a),
        None => Seq::empty(),
    }
}

/// The rows of one slot entry: its `index` (cut to 32 bits, 0 where
/// missing) with each of its uids.
pub open spec fn asset_slot_rows(e: Json) -> Seq<(i32, i64)> {
    asset_slot_uids(e).map_values(|u: i64| (int_or(e, "index"@, 0) as i32, u))
}

/// The rows of all slot entries, entry by entry.
pub open spec fn asset_equip_rows(s: Seq<Json>) -> Seq<(i32, i64)>
    decreases s.len(),
{
    if s.len() == 0 {
        Seq::empty()
    } else {
        asset_equip_rows(s.drop_last()) + asset_slot_rows(s.last())
    }
}

/// The stored rows `(slot, equipment uid)` of a group's slots as an asset
/// lists them (`[{index, equipUid: [..]}, ..]`).
pub fn equip_rows_from_asset(equips: &Vec<Json>) -> (r: Vec<(i32, i64)>)
    ensures
        r@ == asset_equip_rows(equips@),
{
    let mut r: Vec<(i32, i64)> = Vec::new();
    let mut i: usize = 0;
    while i < equips.len()
        invariant
            i <= equips@.len(),
            r@ == asset_equip_rows(equips@.take(i as int)),
        decreases equips@.len() - i,
    {
        assert(equips@.take(i + 1).drop_last() =~= equips@.take(i as int));
        let e = &equips[i];
        let index: i32 = e.i32_or_zero("index");
        let ghost before = r@;
        match e.array_at("equipUid") {
            Some(a) => {
                let us = ints_of(a);
                let mut j: usize = 0;
                while j < us.len()
                    invariant
                        j <= us@.len(),
                        r@ == before + us@.take(j as int).map_values(|u: i64| (index, u)),
                    decreases us@.len() - j,
                {
                    r.push((index, us[j]));
                    j = j + 1;
                    assert(r@ =~= before + us@.take(j as int).map_values(|u: i64| (index, u)));
                }
                assert(us@.take(us@.len() as int) =~= us@);
            },
            None => {},
        }
        assert(r@ =~= before + asset_slot_rows(equips@[i as int]));
        i = i + 1;
    }
    assert(equips@.take(equips@.len() as int) =~= equips@);
    r
}

} // verus!
