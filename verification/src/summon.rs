//! Summon pools: which pools a summon counts toward, and the starting
//! stats of a player who has never summoned.
use vstd::prelude::*;
use crate::game_config::SummonPool;
use crate::models::UserSummonStats;
use crate::select::{filtered, first_index, lemma_filtered_contains, select_first, select_values};

verus! {

/// Pools of this type share one summon count.
pub const SHARED_POOL_TYPE: i32 = 3;

/// The offline time a shared pool row is created with.
pub const SHARED_POOL_OFFLINE_TIME: i64 = 1_750_327_199;

pub open spec fn pool_ids(t: Seq<SummonPool>) -> Seq<i32> {
    Seq::new(t.len(), |i: int| t[i].id)
}

pub open spec fn pool_id_sel(t: Seq<SummonPool>, id: i32) -> Seq<bool> {
    Seq::new(t.len(), |i: int| t[i].id == id)
}

pub open spec fn pool_type_sel(t: Seq<SummonPool>, ty: i32) -> Seq<bool> {
    Seq::new(t.len(), |i: int| t[i].pool_type == ty)
}

/// The pools whose count a summon in pool `id` raises, and whether they
/// share one count: every pool of the shared type (`true`) where the pool
/// is of that type, else the pool alone (`false`); `None` where the table
/// has no such pool.
pub open spec fn spec_counted_pools(t: Seq<SummonPool>, id: i32) -> Option<(bool, Seq<i32>)> {
    match first_index(pool_id_sel(t, id)) {
        Some(i) => if t[i].pool_type == SHARED_POOL_TYPE {
            Some((true, filtered(pool_ids(t), pool_type_sel(t, SHARED_POOL_TYPE))))
        } else {
            Some((false, seq![id]))
        },
        None => None,
    }
}

pub fn counted_pools(t: &Vec<SummonPool>, pool_id: i32) -> (r: Option<(bool, Vec<i32>)>)
    ensures
        match (r, spec_counted_pools(t@, pool_id)) {
            (Some(v), Some(s)) => v.0 == s.0 && v.1@ == s.1,
            (None, None) => true,
            _ => false,
        },
{
    let mut ids: Vec<i32> = Vec::new();
    let mut by_id: Vec<bool> = Vec::new();
    let mut shared: Vec<bool> = Vec::new();
    let mut i: usize = 0;
    while i < t.len()
        invariant
            i <= t@.len(),
            ids@.len() == i,
            by_id@.len() == i,
            shared@.len() == i,
            forall|j: int| 0 <= j < i ==> ids@[j] == t@[j].id,
            forall|j: int| 0 <= j < i ==> by_id@[j] == (t@[j].id == pool_id),
            forall|j: int| 0 <= j < i ==> shared@[j] == (t@[j].pool_type == SHARED_POOL_TYPE),
        decreases t@.len() - i,
    {
        ids.push(t[i].id);
        by_id.push(t[i].id == pool_id);
        shared.push(t[i].pool_type == SHARED_POOL_TYPE);
        i = i + 1;
    }
    assert(ids@ =~= pool_ids(t@));
    assert(by_id@ =~= pool_id_sel(t@, pool_id));
    assert(shared@ =~= pool_type_sel(t@, SHARED_POOL_TYPE));
    match select_first(&by_id) {
        Some(k) => if t[k].pool_type == SHARED_POOL_TYPE {
            Some((true, select_values(&ids, &shared)))
        } else {
            let v = vec![pool_id];
            assert(v@ =~= seq![pool_id]);
            Some((false, v))
        },
        None => None,
    }
}

/// A summon always counts toward the pool it was made in.
pub proof fn lemma_counts_own_pool(t: Seq<SummonPool>, id: i32)
    requires
        spec_counted_pools(t, id) is Some,
    ensures
        spec_counted_pools(t, id).unwrap().1.contains(id),
{
    crate::select::lemma_first_exists(pool_id_sel(t, id));
    let c = choose|k: int| crate::select::first_at(pool_id_sel(t, id), k);
    assert(crate::select::first_at(pool_id_sel(t, id), c));
    if t[c].pool_type == SHARED_POOL_TYPE {
        lemma_filtered_contains(pool_ids(t), pool_type_sel(t, SHARED_POOL_TYPE), c);
    } else {
        assert(seq![id][0] == id);
    }
}

/// The summon stats of a player with none stored.
pub fn default_summon_stats(user_id: i64) -> (s: UserSummonStats)
    ensures
        s.user_id == user_id,
        !s.free_equip_summon,
        !s.is_show_new_summon,
        s.new_summon_count == 0,
        s.total_summon_count == 0,
{
    UserSummonStats {
        user_id,
        free_equip_summon: false,
        is_show_new_summon: false,
        new_summon_count: 0,
        total_summon_count: 0,
    }
}

} // verus!
