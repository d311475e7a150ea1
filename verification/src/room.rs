//! The home room of a new account, read from its starter asset: the placed
//! blocks, the buildings with the uids they are given, the block packages
//! and the roads. Entries whose id is 0 (or missing) are skipped.
use vstd::prelude::*;
use crate::json::{Json, int_or, spec_as_array, spec_get, spec_ints, ints_of, spec_as_bool};
use crate::models::{BlockInfo, BlockPackage};
use crate::text::int_text;

verus! {

/// The uid of a player's first building, where the player has none yet.
pub const FIRST_BUILDING_UID: i64 = 20000000;

/// The positions, in order, of the entries whose `key` field is a nonzero
/// integer.
pub open spec fn kept_at(s: Seq<Json>, key: Seq<char>) -> Seq<int>
    decreases s.len(),
{
    if s.len() == 0 {
        Seq::empty()
    } else {
        let rest = kept_at(s.drop_last(), key);
        if int_or(s.last(), key, 0) != 0 {
            rest.push(s.len() - 1)
        } else {
            rest
        }
    }
}

/// The kept positions lie in the sequence, rise strictly, and are exactly
/// the entries with a nonzero id.
pub proof fn lemma_kept_at(s: Seq<Json>, key: Seq<char>)
    ensures
        forall|k: int|
            0 <= k < kept_at(s, key).len() ==> 0 <= #[trigger] kept_at(s, key)[k] < s.len()
                && int_or(s[kept_at(s, key)[k]], key, 0) != 0,
        forall|j: int, k: int|
            0 <= j < k < kept_at(s, key).len() ==> #[trigger] kept_at(s, key)[j]
                < #[trigger] kept_at(s, key)[k],
        forall|i: int|
            0 <= i < s.len() && int_or(s[i], key, 0) != 0 ==> exists|k: int|
                0 <= k < kept_at(s, key).len() && #[trigger] kept_at(s, key)[k] == i,
    decreases s.len(),
{
    if s.len() > 0 {
        let t = s.drop_last();
        lemma_kept_at(t, key);
        assert forall|i: int| 0 <= i < s.len() && int_or(s[i], key, 0) != 0 implies exists|k: int|
            0 <= k < kept_at(s, key).len() && #[trigger] kept_at(s, key)[k] == i by {
            if i < s.len() - 1 {
                assert(t[i] == s[i]);
                let k = choose|k: int| 0 <= k < kept_at(t, key).len() && #[trigger] kept_at(t, key)[k] == i;
                assert(kept_at(s, key)[k] == i);
            } else {
                assert(kept_at(s, key)[kept_at(t, key).len() as int] == i);
            }
        }
    }
}

/// The step that a loop over the entries takes.
proof fn lemma_kept_step(s: Seq<Json>, key: Seq<char>, i: int)
    requires
        0 <= i < s.len(),
    ensures
        kept_at(s.take(i + 1), key) == (if int_or(s[i], key, 0) != 0 {
            kept_at(s.take(i), key).push(i)
        } else {
            kept_at(s.take(i), key)
        }),
{
    assert(s.take(i + 1).drop_last() =~= s.take(i));
    assert(s.take(i + 1).last() == s[i]);
}

/// A prefix keeps no more entries than the whole.
proof fn lemma_kept_prefix_len(s: Seq<Json>, key: Seq<char>, i: int)
    requires
        0 <= i <= s.len(),
    ensures
        kept_at(s.take(i), key).len() <= kept_at(s, key).len(),
    decreases s.len() - i,
{
    if i < s.len() {
        lemma_kept_step(s, key, i);
        lemma_kept_prefix_len(s, key, i + 1);
    } else {
        assert(s.take(i) =~= s);
    }
}

/// How many entries have a nonzero `key` field.
pub fn kept_count(entries: &Vec<Json>, key: &str) -> (n: usize)
    ensures
        n == kept_at(entries@, key@).len(),
{
    let mut n: usize = 0;
    let mut i: usize = 0;
    while i < entries.len()
        invariant
            i <= entries@.len(),
            n == kept_at(entries@.take(i as int), key@).len(),
            n <= i,
        decreases entries@.len() - i,
    {
        proof {
            lemma_kept_step(entries@, key@, i as int);
        }
        if entries[i].int_or(key, 0) != 0 {
            n = n + 1;
        }
        i = i + 1;
    }
    assert(entries@.take(entries@.len() as int) =~= entries@);
    n
}

// ---------------------------------------------------------------------------
// Blocks
// ---------------------------------------------------------------------------

/// A placed block as its entry gives it, each field cut to 32 bits.
pub open spec fn block_of(b: BlockInfo, user_id: i64, e: Json) -> bool {
    &&& b.user_id == user_id
    &&& b.block_id == int_or(e, "blockId"@, 0) as i32
    &&& b.x == int_or(e, "x"@, 0) as i32
    &&& b.y == int_or(e, "y"@, 0) as i32
    &&& b.rotate == int_or(e, "rotate"@, 0) as i32
    &&& b.water_type == int_or(e, "waterType"@, 0) as i32
    &&& b.block_color == int_or(e, "blockColor"@, 0) as i32
}

/// The placed blocks: one per entry with a nonzero `blockId`, in order.
pub fn block_rows(infos: &Vec<Json>, user_id: i64) -> (r: Vec<BlockInfo>)
    ensures
        r@.len() == kept_at(infos@, "blockId"@).len(),
        forall|k: int|
            0 <= k < r@.len() ==> block_of(#[trigger] r@[k], user_id, infos@[kept_at(infos@, "blockId"@)[k]]),
{
    let ghost key = "blockId"@;
    let mut r: Vec<BlockInfo> = Vec::new();
    let mut i: usize = 0;
    while i < infos.len()
        invariant
            key == "blockId"@,
            i <= infos@.len(),
            r@.len() == kept_at(infos@.take(i as int), key).len(),
            forall|k: int|
                0 <= k < r@.len() ==> block_of(#[trigger] r@[k], user_id, infos@[kept_at(infos@.take(i as int), key)[k]]),
        decreases infos@.len() - i,
    {
        proof {
            lemma_kept_step(infos@, key, i as int);
        }
        let e = &infos[i];
        if e.int_or("blockId", 0) != 0 {
            let b = BlockInfo {
                user_id,
                block_id: e.i32_or_zero("blockId"),
                x: e.i32_or_zero("x"),
                y: e.i32_or_zero("y"),
                rotate: e.i32_or_zero("rotate"),
                water_type: e.i32_or_zero("waterType"),
                block_color: e.i32_or_zero("blockColor"),
            };
            r.push(b);
        }
        i = i + 1;
    }
    assert(infos@.take(infos@.len() as int) =~= infos@);
    r
}

// ---------------------------------------------------------------------------
// Buildings
// ---------------------------------------------------------------------------

/// A building to place, with the uid it is given.
#[derive(Debug, Clone)]
pub struct BuildingRow {
    pub uid: i64,
    pub define_id: i32,
    pub in_use: bool,
    pub x: i32,
    pub y: i32,
    pub rotate: i32,
    pub level: i32,
}

/// A building as its entry gives it, with the uid `uid`.
pub open spec fn building_of(b: BuildingRow, uid: int, e: Json) -> bool {
    &&& b.uid == uid
    &&& b.define_id == int_or(e, "defineId"@, 0) as i32
    &&& b.in_use == (match spec_as_bool(spec_get(e, "use"@)) {
        Some(u) => u,
        None => false,
    })
    &&& b.x == int_or(e, "x"@, 0) as i32
    &&& b.y == int_or(e, "y"@, 0) as i32
    &&& b.rotate == int_or(e, "rotate"@, 0) as i32
    &&& b.level == int_or(e, "level"@, 0) as i32
}

/// The uid of the first new building, from the highest uid the player has.
pub fn first_building_uid(last: Option<i64>) -> (r: i64)
    requires
        last matches Some(u) ==> u < i64::MAX,
    ensures
        r == (match last {
            Some(u) => u + 1,
            None => FIRST_BUILDING_UID as int,
        }),
{
    match last {
        Some(u) => u + 1,
        None => FIRST_BUILDING_UID,
    }
}

/// The buildings: one per entry with a nonzero `defineId`, in order, the
/// k-th of them with uid `first_uid + k`.
pub fn building_rows(infos: &Vec<Json>, first_uid: i64) -> (r: Vec<BuildingRow>)
    requires
        first_uid + kept_at(infos@, "defineId"@).len() <= i64::MAX,
    ensures
        r@.len() == kept_at(infos@, "defineId"@).len(),
        forall|k: int|
            0 <= k < r@.len() ==> building_of(#[trigger] r@[k], first_uid + k, infos@[kept_at(infos@, "defineId"@)[k]]),
{
    let ghost key = "defineId"@;
    let mut r: Vec<BuildingRow> = Vec::new();
    let mut uid: i64 = first_uid;
    let mut i: usize = 0;
    while i < infos.len()
        invariant
            key == "defineId"@,
            i <= infos@.len(),
            first_uid + kept_at(infos@, key).len() <= i64::MAX,
            r@.len() == kept_at(infos@.take(i as int), key).len(),
            uid == first_uid + r@.len(),
            forall|k: int|
                0 <= k < r@.len() ==> building_of(#[trigger] r@[k], first_uid + k, infos@[kept_at(infos@.take(i as int), key)[k]]),
        decreases infos@.len() - i,
    {
        proof {
            lemma_kept_step(infos@, key, i as int);
            lemma_kept_prefix_len(infos@, key, i as int + 1);
        }
        let e = &infos[i];
        if e.int_or("defineId", 0) != 0 {
            let b = BuildingRow {
                uid,
                define_id: e.i32_or_zero("defineId"),
                in_use: e.bool_or("use", false),
                x: e.i32_or_zero("x"),
                y: e.i32_or_zero("y"),
                rotate: e.i32_or_zero("rotate"),
                level: e.i32_or_zero("level"),
            };
            r.push(b);
            uid = uid + 1;
        }
        i = i + 1;
    }
    assert(infos@.take(infos@.len() as int) =~= infos@);
    r
}

/// The new buildings get distinct uids, all above the player's highest.
pub proof fn lemma_building_uids_fresh(infos: Seq<Json>, first_uid: int, rows: Seq<BuildingRow>)
    requires
        rows.len() == kept_at(infos, "defineId"@).len(),
        forall|k: int|
            0 <= k < rows.len() ==> building_of(#[trigger] rows[k], first_uid + k, infos[kept_at(infos, "defineId"@)[k]]),
    ensures
        forall|j: int, k: int| 0 <= j < k < rows.len() ==> #[trigger] rows[j].uid < #[trigger] rows[k].uid,
        forall|k: int| 0 <= k < rows.len() ==> #[trigger] rows[k].uid >= first_uid,
{
}

// ---------------------------------------------------------------------------
// Block packages
// ---------------------------------------------------------------------------

/// The block ids listed under `key`, each cut to 32 bits; empty where the
/// field is missing or no array.
pub open spec fn id_list(e: Json, key: Seq<char>) -> Seq<i32> {
    match spec_as_array(spec_get(e, key)) {
        Some(a) => spec_ints(a).map_values(|n: i64| n as i32),
        None => Seq::empty(),
    }
}

/// The ids, comma-separated, each as `{}` renders it.
pub open spec fn joined_ids(ids: Seq<i32>) -> Seq<char>
    decreases ids.len(),
{
    if ids.len() == 0 {
        Seq::empty()
    } else if ids.len() == 1 {
        int_text(ids[0] as int)
    } else {
        joined_ids(ids.drop_last()) + seq![','] + int_text(ids.last() as int)
    }
}

/// A list of integers as compact JSON text: `[1,2,3]`.
pub open spec fn id_list_text(ids: Seq<i32>) -> Seq<char> {
    seq!['['] + joined_ids(ids) + seq![']']
}

/// serde_json's `to_string` on a `Vec<i32>`. Its compact formatter writes
/// `[`, then each integer as itoa renders it with `,` between, then `]`;
/// serialising integers into a `String` cannot fail, so the result is `Ok`.
#[verifier::external_body]
fn json_id_list(ids: &Vec<i32>) -> (r: Result<String, serde_json::Error>)
    ensures
        r is Ok,
        r matches Ok(s) ==> s@ == id_list_text(ids@),
{
    serde_json::to_string(ids)
}

/// A list of block ids as the JSON text that is stored.
fn id_list_json(ids: &Vec<i32>) -> (r: String)
    ensures
        r@ == id_list_text(ids@),
{
    match json_id_list(ids) {
        Ok(s) => s,
        Err(_) => "[]".to_owned(),
    }
}

/// The block ids of a package entry under `key`.
fn ids_at(e: &Json, key: &str) -> (r: Vec<i32>)
    ensures
        r@ == id_list(*e, key@),
{
    let mut r: Vec<i32> = Vec::new();
    match e.array_at(key) {
        Some(a) => {
            let ns = ints_of(a);
            let mut i: usize = 0;
            while i < ns.len()
                invariant
                    i <= ns@.len(),
                    r@ == ns@.take(i as int).map_values(|n: i64| n as i32),
                decreases ns@.len() - i,
            {
                let n: i64 = ns[i];
                #[verifier::truncate]
                let m: i32 = n as i32;
                r.push(m);
                i = i + 1;
                assert(r@ =~= ns@.take(i as int).map_values(|n: i64| n as i32));
            }
            assert(ns@.take(ns@.len() as int) =~= ns@);
        },
        None => {},
    }
    r
}

/// A block package as its entry gives it.
pub open spec fn package_of(p: BlockPackage, user_id: i64, e: Json) -> bool {
    &&& p.user_id == user_id
    &&& p.block_package_id == int_or(e, "blockPackageId"@, 0) as i32
    &&& p.unused_block_ids@ == id_list_text(id_list(e, "unUseBlockIds"@))
    &&& p.used_block_ids@ == id_list_text(id_list(e, "useBlockIds"@))
}

/// The block packages: one per entry with a nonzero `blockPackageId`, in
/// order, its block id lists kept as JSON text.
pub fn package_rows(packages: &Vec<Json>, user_id: i64) -> (r: Vec<BlockPackage>)
    ensures
        r@.len() == kept_at(packages@, "blockPackageId"@).len(),
        forall|k: int|
            0 <= k < r@.len() ==> package_of(#[trigger] r@[k], user_id, packages@[kept_at(packages@, "blockPackageId"@)[k]]),
{
    let ghost key = "blockPackageId"@;
    let mut r: Vec<BlockPackage> = Vec::new();
    let mut i: usize = 0;
    while i < packages.len()
        invariant
            key == "blockPackageId"@,
            i <= packages@.len(),
            r@.len() == kept_at(packages@.take(i as int), key).len(),
            forall|k: int|
                0 <= k < r@.len() ==> package_of(#[trigger] r@[k], user_id, packages@[kept_at(packages@.take(i as int), key)[k]]),
        decreases packages@.len() - i,
    {
        proof {
            lemma_kept_step(packages@, key, i as int);
        }
        let e = &packages[i];
        if e.int_or("blockPackageId", 0) != 0 {
            let unused = ids_at(e, "unUseBlockIds");
            let used = ids_at(e, "useBlockIds");
            let p = BlockPackage {
                user_id,
                block_package_id: e.i32_or_zero("blockPackageId"),
                unused_block_ids: id_list_json(&unused),
                used_block_ids: id_list_json(&used),
            };
            r.push(p);
        }
        i = i + 1;
    }
    assert(packages@.take(packages@.len() as int) =~= packages@);
    r
}

// ---------------------------------------------------------------------------
// Roads
// ---------------------------------------------------------------------------

/// A road to lay, without its points; `entry` is the position of its entry
/// in the asset, where its points are read.
#[derive(Debug, Clone)]
pub struct RoadRow {
    pub entry: usize,
    pub id: i32,
    pub from_type: i32,
    pub to_type: i32,
    pub critter_uid: i64,
    pub building_uid: i64,
    pub building_define_id: i32,
    pub skin_id: i32,
    pub block_clean_type: i32,
}

/// The critter a road carries: one of the player's critters where the
/// asset puts a critter on it (0 where the player has none), else 0.
pub open spec fn road_critter(e: Json, critter: Option<i64>) -> i64 {
    if int_or(e, "critterUid"@, 0) != 0 {
        match critter {
            Some(c) => c,
            None => 0,
        }
    } else {
        0
    }
}

/// A road as entry `at` gives it.
pub open spec fn road_of(r: RoadRow, at: int, e: Json, critter: Option<i64>) -> bool {
    &&& r.entry == at
    &&& r.id == int_or(e, "id"@, 0) as i32
    &&& r.from_type == int_or(e, "fromType"@, 0) as i32
    &&& r.to_type == int_or(e, "toType"@, 0) as i32
    &&& r.critter_uid == road_critter(e, critter)
    &&& r.building_uid == int_or(e, "buildingUid"@, 0)
    &&& r.building_define_id == int_or(e, "buildingDefineId"@, 0) as i32
    &&& r.skin_id == int_or(e, "skinId"@, 0) as i32
    &&& r.block_clean_type == int_or(e, "blockCleanType"@, 0) as i32
}

/// The roads: one per entry with a nonzero `id`, in order. `critter` is
/// the player's critter picked for the roads that carry one.
pub fn road_rows(roads: &Vec<Json>, critter: Option<i64>) -> (r: Vec<RoadRow>)
    ensures
        r@.len() == kept_at(roads@, "id"@).len(),
        forall|k: int|
            0 <= k < r@.len() ==> road_of(
                #[trigger] r@[k],
                kept_at(roads@, "id"@)[k],
                roads@[kept_at(roads@, "id"@)[k]],
                critter,
            ),
{
    let ghost key = "id"@;
    let mut r: Vec<RoadRow> = Vec::new();
    let mut i: usize = 0;
    while i < roads.len()
        invariant
            key == "id"@,
            i <= roads@.len(),
            r@.len() == kept_at(roads@.take(i as int), key).len(),
            forall|k: int|
                0 <= k < r@.len() ==> road_of(
                    #[trigger] r@[k],
                    kept_at(roads@.take(i as int), key)[k],
                    roads@[kept_at(roads@.take(i as int), key)[k]],
                    critter,
                ),
        decreases roads@.len() - i,
    {
        proof {
            lemma_kept_step(roads@, key, i as int);
        }
        let e = &roads[i];
        if e.int_or("id", 0) != 0 {
            let critter_uid: i64 = if e.int_or("critterUid", 0) != 0 {
                match critter {
                    Some(c) => c,
                    None => 0,
                }
            } else {
                0
            };
            let row = RoadRow {
                entry: i,
                id: e.i32_or_zero("id"),
                from_type: e.i32_or_zero("fromType"),
                to_type: e.i32_or_zero("toType"),
                critter_uid,
                building_uid: e.int_or("buildingUid", 0),
                building_define_id: e.i32_or_zero("buildingDefineId"),
                skin_id: e.i32_or_zero("skinId"),
                block_clean_type: e.i32_or_zero("blockCleanType"),
            };
            r.push(row);
        }
        i = i + 1;
    }
    assert(roads@.take(roads@.len() as int) =~= roads@);
    r
}

} // verus!
