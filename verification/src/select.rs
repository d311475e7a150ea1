//! Picking entries out of data tables, as the iterator adaptors of std do:
//! `find` (the first match), `min_by_key` (the first of the smallest keys),
//! `max_by_key` (the last of the largest keys) and `filter`.
//!
//! A table is described here by two parallel sequences: `keys[i]` is the key
//! of entry `i`, and `sel[i]` says whether entry `i` passes the filter.
use vstd::prelude::*;

verus! {

pub open spec fn any_selected(sel: Seq<bool>) -> bool {
    exists|j: int| 0 <= j < sel.len() && sel[j]
}

/// Entry `i` is the first selected one.
pub open spec fn first_at(sel: Seq<bool>, i: int) -> bool {
    &&& 0 <= i < sel.len()
    &&& sel[i]
    &&& forall|j: int| 0 <= j < i ==> !sel[j]
}

/// Entry `i` is the first selected entry with the smallest key among the
/// selected ones (what `Iterator::min_by_key` returns).
pub open spec fn first_min_at(keys: Seq<i32>, sel: Seq<bool>, i: int) -> bool {
    &&& keys.len() == sel.len()
    &&& 0 <= i < sel.len()
    &&& sel[i]
    &&& forall|j: int| 0 <= j < sel.len() && sel[j] ==> keys[i] <= keys[j]
    &&& forall|j: int| 0 <= j < i && sel[j] ==> keys[i] < keys[j]
}

/// Entry `i` is the last selected entry with the largest key among the
/// selected ones (what `Iterator::max_by_key` returns).
pub open spec fn last_max_at(keys: Seq<i32>, sel: Seq<bool>, i: int) -> bool {
    &&& keys.len() == sel.len()
    &&& 0 <= i < sel.len()
    &&& sel[i]
    &&& forall|j: int| 0 <= j < sel.len() && sel[j] ==> keys[j] <= keys[i]
    &&& forall|j: int| i < j < sel.len() && sel[j] ==> keys[j] < keys[i]
}

/// The index that `find` stops at, if any.
pub open spec fn first_index(sel: Seq<bool>) -> Option<int> {
    if any_selected(sel) {
        Some(choose|i: int| first_at(sel, i))
    } else {
        None
    }
}

/// The index that `min_by_key` returns, if any.
pub open spec fn first_min_index(keys: Seq<i32>, sel: Seq<bool>) -> Option<int> {
    if any_selected(sel) {
        Some(choose|i: int| first_min_at(keys, sel, i))
    } else {
        None
    }
}

/// The index that `max_by_key` returns, if any.
pub open spec fn last_max_index(keys: Seq<i32>, sel: Seq<bool>) -> Option<int> {
    if any_selected(sel) {
        Some(choose|i: int| last_max_at(keys, sel, i))
    } else {
        None
    }
}

/// The smallest selected key (what `.map(key).min()` returns).
pub open spec fn min_key(keys: Seq<i32>, sel: Seq<bool>) -> Option<i32> {
    match first_min_index(keys, sel) {
        Some(i) => Some(keys[i]),
        None => None,
    }
}

/// The largest selected key (what `.map(key).max()` returns).
pub open spec fn max_key(keys: Seq<i32>, sel: Seq<bool>) -> Option<i32> {
    match last_max_index(keys, sel) {
        Some(i) => Some(keys[i]),
        None => None,
    }
}

/// The selected values, in order (what `filter` then `map` yields).
pub open spec fn filtered(vals: Seq<i32>, sel: Seq<bool>) -> Seq<i32>
    decreases vals.len(),
{
    if vals.len() == 0 || sel.len() < vals.len() {
        Seq::empty()
    } else {
        let rest = filtered(vals.drop_last(), sel.take(vals.len() - 1));
        if sel[vals.len() - 1] {
            rest.push(vals.last())
        } else {
            rest
        }
    }
}

/// A selection with a selected entry has a first one.
pub proof fn lemma_first_exists(sel: Seq<bool>)
    requires
        any_selected(sel),
    ensures
        exists|i: int| first_at(sel, i),
    decreases sel.len(),
{
    let p = sel.drop_last();
    if any_selected(p) {
        lemma_first_exists(p);
        let i = choose|i: int| first_at(p, i);
        assert forall|j: int| 0 <= j < i implies !sel[j] by {
            assert(p[j] == sel[j]);
        }
        assert(p[i] == sel[i]);
        assert(first_at(sel, i));
    } else {
        let k = choose|k: int| 0 <= k < sel.len() && sel[k];
        if k < sel.len() - 1 {
            assert(p[k] == sel[k]);
        }
        assert forall|j: int| 0 <= j < sel.len() - 1 implies !sel[j] by {
            assert(p[j] == sel[j]);
        }
        assert(first_at(sel, sel.len() - 1));
    }
}

/// A selected value is among the filtered ones.
pub proof fn lemma_filtered_contains(vals: Seq<i32>, sel: Seq<bool>, i: int)
    requires
        vals.len() == sel.len(),
        0 <= i < vals.len(),
        sel[i],
    ensures
        filtered(vals, sel).contains(vals[i]),
    decreases vals.len(),
{
    let n = vals.len();
    let rest = filtered(vals.drop_last(), sel.take(n - 1));
    if i == n - 1 {
        assert(filtered(vals, sel) == rest.push(vals.last()));
        assert(filtered(vals, sel)[rest.len() as int] == vals[i]);
    } else {
        lemma_filtered_contains(vals.drop_last(), sel.take(n - 1), i);
        let j = choose|j: int| 0 <= j < rest.len() && rest[j] == vals[i];
        if sel[n - 1] {
            assert(rest.push(vals.last())[j] == vals[i]);
        }
    }
}

/// An index as an integer.
pub open spec fn idx(r: Option<usize>) -> Option<int> {
    match r {
        Some(i) => Some(i as int),
        None => None,
    }
}

proof fn lemma_first_at_unique(sel: Seq<bool>, i: int, j: int)
    requires
        first_at(sel, i),
        first_at(sel, j),
    ensures
        i == j,
{
}

proof fn lemma_first_min_unique(keys: Seq<i32>, sel: Seq<bool>, i: int, j: int)
    requires
        first_min_at(keys, sel, i),
        first_min_at(keys, sel, j),
    ensures
        i == j,
{
    if i < j {
        assert(keys[j] < keys[i]);
        assert(keys[i] <= keys[j]);
    } else if j < i {
        assert(keys[i] < keys[j]);
        assert(keys[j] <= keys[i]);
    }
}

proof fn lemma_last_max_unique(keys: Seq<i32>, sel: Seq<bool>, i: int, j: int)
    requires
        last_max_at(keys, sel, i),
        last_max_at(keys, sel, j),
    ensures
        i == j,
{
    if i < j {
        assert(keys[j] < keys[i]);
        assert(keys[j] <= keys[i]);
        assert(keys[i] <= keys[j]);
    } else if j < i {
        assert(keys[i] < keys[j]);
        assert(keys[i] <= keys[j]);
        assert(keys[j] <= keys[i]);
    }
}

/// The first selected entry (`find`).
pub fn select_first(sel: &Vec<bool>) -> (r: Option<usize>)
    ensures
        idx(r) == first_index(sel@),
        r matches Some(i) ==> first_at(sel@, i as int),
{
    let n = sel.len();
    let mut i: usize = 0;
    while i < n
        invariant
            n == sel@.len(),
            i <= n,
            forall|j: int| 0 <= j < i ==> !sel@[j],
        decreases n - i,
    {
        if sel[i] {
            proof {
                assert(first_at(sel@, i as int));
                let c = choose|k: int| first_at(sel@, k);
                lemma_first_at_unique(sel@, i as int, c);
            }
            return Some(i);
        }
        i = i + 1;
    }
    None
}

/// Entry `i` is the last selected one.
pub open spec fn last_at(sel: Seq<bool>, i: int) -> bool {
    &&& 0 <= i < sel.len()
    &&& sel[i]
    &&& forall|j: int| i < j < sel.len() ==> !sel[j]
}

/// The last selected index, if any (what an index built by inserting every
/// entry in turn keeps for a key).
pub open spec fn last_index(sel: Seq<bool>) -> Option<int> {
    if any_selected(sel) {
        Some(choose|i: int| last_at(sel, i))
    } else {
        None
    }
}

/// The last selected entry.
pub fn select_last(sel: &Vec<bool>) -> (r: Option<usize>)
    ensures
        idx(r) == last_index(sel@),
        r matches Some(i) ==> last_at(sel@, i as int),
{
    let n = sel.len();
    let mut i: usize = n;
    while i > 0
        invariant
            n == sel@.len(),
            i <= n,
            forall|j: int| i <= j < n ==> !sel@[j],
        decreases i,
    {
        if sel[i - 1] {
            proof {
                assert(last_at(sel@, i - 1));
                let c = choose|k: int| last_at(sel@, k);
                if c < i - 1 {
                    assert(!sel@[i - 1]);
                } else if c > i - 1 {
                    assert(!sel@[c]);
                }
            }
            return Some(i - 1);
        }
        i = i - 1;
    }
    None
}

/// The first of the selected entries with the smallest key (`min_by_key`).
pub fn select_first_min(keys: &Vec<i32>, sel: &Vec<bool>) -> (r: Option<usize>)
    requires
        keys@.len() == sel@.len(),
    ensures
        idx(r) == first_min_index(keys@, sel@),
        r matches Some(i) ==> first_min_at(keys@, sel@, i as int),
{
    let n = sel.len();
    let mut best: Option<usize> = None;
    let mut i: usize = 0;
    while i < n
        invariant
            n == sel@.len(),
            n == keys@.len(),
            i <= n,
            match best {
                Some(b) => first_min_at(keys@.take(i as int), sel@.take(i as int), b as int),
                None => forall|j: int| 0 <= j < i ==> !sel@[j],
            },
        decreases n - i,
    {
        if sel[i] {
            match best {
                Some(b) => {
                    if keys[i] < keys[b] {
                        best = Some(i);
                    }
                },
                None => {
                    best = Some(i);
                },
            }
        }
        i = i + 1;
        proof {
            assert(keys@.take(i as int).len() == i);
        }
    }
    proof {
        assert(keys@.take(n as int) =~= keys@);
        assert(sel@.take(n as int) =~= sel@);
        match best {
            Some(b) => {
                let c = choose|k: int| first_min_at(keys@, sel@, k);
                lemma_first_min_unique(keys@, sel@, b as int, c);
            },
            None => {},
        }
    }
    best
}

/// The last of the selected entries with the largest key (`max_by_key`).
pub fn select_last_max(keys: &Vec<i32>, sel: &Vec<bool>) -> (r: Option<usize>)
    requires
        keys@.len() == sel@.len(),
    ensures
        idx(r) == last_max_index(keys@, sel@),
        r matches Some(i) ==> last_max_at(keys@, sel@, i as int),
{
    let n = sel.len();
    let mut best: Option<usize> = None;
    let mut i: usize = 0;
    while i < n
        invariant
            n == sel@.len(),
            n == keys@.len(),
            i <= n,
            match best {
                Some(b) => last_max_at(keys@.take(i as int), sel@.take(i as int), b as int),
                None => forall|j: int| 0 <= j < i ==> !sel@[j],
            },
        decreases n - i,
    {
        if sel[i] {
            match best {
                Some(b) => {
                    if keys[i] >= keys[b] {
                        best = Some(i);
                    }
                },
                None => {
                    best = Some(i);
                },
            }
        }
        i = i + 1;
        proof {
            assert(keys@.take(i as int).len() == i);
        }
    }
    proof {
        assert(keys@.take(n as int) =~= keys@);
        assert(sel@.take(n as int) =~= sel@);
        match best {
            Some(b) => {
                let c = choose|k: int| last_max_at(keys@, sel@, k);
                lemma_last_max_unique(keys@, sel@, b as int, c);
            },
            None => {},
        }
    }
    best
}

/// The smallest selected key (`.min()` over the mapped keys).
pub fn select_min_key(keys: &Vec<i32>, sel: &Vec<bool>) -> (r: Option<i32>)
    requires
        keys@.len() == sel@.len(),
    ensures
        r == min_key(keys@, sel@),
{
    match select_first_min(keys, sel) {
        Some(i) => Some(keys[i]),
        None => None,
    }
}

/// The largest selected key (`.max()` over the mapped keys).
pub fn select_max_key(keys: &Vec<i32>, sel: &Vec<bool>) -> (r: Option<i32>)
    requires
        keys@.len() == sel@.len(),
    ensures
        r == max_key(keys@, sel@),
{
    match select_last_max(keys, sel) {
        Some(i) => Some(keys[i]),
        None => None,
    }
}

/// The selected values, in order.
pub fn select_values(vals: &Vec<i32>, sel: &Vec<bool>) -> (r: Vec<i32>)
    requires
        vals@.len() == sel@.len(),
    ensures
        r@ == filtered(vals@, sel@),
{
    let n = vals.len();
    let mut r: Vec<i32> = Vec::new();
    let mut i: usize = 0;
    while i < n
        invariant
            n == vals@.len(),
            n == sel@.len(),
            i <= n,
            r@ == filtered(vals@.take(i as int), sel@.take(i as int)),
        decreases n - i,
    {
        proof {
            assert(vals@.take(i + 1).drop_last() =~= vals@.take(i as int));
            assert(sel@.take(i + 1).take(i as int) =~= sel@.take(i as int));
        }
        if sel[i] {
            r.push(vals[i]);
        }
        i = i + 1;
    }
    proof {
        assert(vals@.take(n as int) =~= vals@);
        assert(sel@.take(n as int) =~= sel@);
    }
    r
}

} // verus!
