//! Dungeon progress: sending the dungeon list in pages of at most 100,
//! dropping empty slots from a lineup, and deciding whether a cleared
//! battle replaces the stored record.
use vstd::prelude::*;

verus! {

/// The most dungeons the client takes in one message.
pub const DUNGEON_PAGE: usize = 100;

/// The pages `[start, end)` of `len` rows, `size` rows each but the last.
pub open spec fn spec_pages(len: nat, size: nat) -> Seq<(int, int)>
    recommends
        size > 0,
{
    Seq::new(
        if len == 0 {
            0
        } else {
            ((len - 1) / (size as int) + 1) as nat
        },
        |k: int| (k * size, if (k + 1) * size <= len { (k + 1) * size } else { len as int }),
    )
}

/// The row ranges of the pages (what `slice::chunks(size)` yields).
pub fn page_bounds(len: usize, size: usize) -> (r: Vec<(usize, usize)>)
    requires
        size > 0,
    ensures
        r@.len() == spec_pages(len as nat, size as nat).len(),
        forall|k: int|
            0 <= k < r@.len() ==> (#[trigger] r@[k]).0 == spec_pages(len as nat, size as nat)[k].0
                && r@[k].1 == spec_pages(len as nat, size as nat)[k].1,
{
    let ghost pages = spec_pages(len as nat, size as nat);
    let mut r: Vec<(usize, usize)> = Vec::new();
    if len == 0 {
        return r;
    }
    let npages: usize = (len - 1) / size + 1;
    let ghost q: int = (len - 1) as int / size as int;
    proof {
        vstd::arithmetic::div_mod::lemma_fundamental_div_mod((len - 1) as int, size as int);
    }
    let mut k: usize = 0;
    let mut start: usize = 0;
    while k < npages
        invariant
            size > 0,
            len > 0,
            npages == q + 1,
            len - 1 == q * size + ((len - 1) as int % (size as int)),
            0 <= ((len - 1) as int % (size as int)) < size,
            pages == spec_pages(len as nat, size as nat),
            pages.len() == npages,
            k <= npages,
            k < npages ==> start == k * size,
            r@.len() == k,
            forall|j: int|
                0 <= j < r@.len() ==> (#[trigger] r@[j]).0 == pages[j].0 && r@[j].1 == pages[j].1,
        decreases npages - k,
    {
                assert(k * size <= q * size) by (nonlinear_arith)
            requires
                k <= q,
                size > 0,
        ;
        assert((k + 1) * size == k * size + size) by (nonlinear_arith);
        let end = if len - start <= size {
            len
        } else {
            start + size
        };
        r.push((start, end));
        if k + 1 < npages {
            assert((k + 1) * size <= q * size) by (nonlinear_arith)
                requires
                    k + 1 <= q,
                    size > 0,
            ;
            start = start + size;
        }
        k = k + 1;
    }
    r
}

/// The pages cut the rows into consecutive, non-empty runs of at most
/// `size` rows, from the first row to the last, all of them full but the
/// last.
pub proof fn lemma_pages_partition(len: nat, size: nat)
    requires
        size > 0,
    ensures
        ({
            let p = spec_pages(len, size);
            &&& len == 0 <==> p.len() == 0
            &&& p.len() > 0 ==> p[0].0 == 0 && p[p.len() - 1].1 == len
            &&& forall|k: int|
                0 <= k < p.len() ==> 0 < (#[trigger] p[k]).1 - p[k].0 <= size
            &&& forall|k: int|
                0 <= k < p.len() - 1 ==> (#[trigger] p[k]).1 == p[k + 1].0 && p[k].1 - p[k].0
                    == size
        }),
{
    let p = spec_pages(len, size);
    if len > 0 {
        let q = (len - 1) / (size as int);
        vstd::arithmetic::div_mod::lemma_fundamental_div_mod((len - 1) as int, size as int);
        assert(p.len() == q + 1);
        assert forall|k: int| 0 <= k < p.len() implies 0 < (#[trigger] p[k]).1 - p[k].0 <= size by {
            assert(k * size <= q * size) by (nonlinear_arith)
                requires
                    k <= q,
                    size > 0,
            ;
            assert((k + 1) * size == k * size + size) by (nonlinear_arith);
        }
        assert forall|k: int| 0 <= k < p.len() - 1 implies (#[trigger] p[k]).1 == p[k + 1].0 && p[k].1
            - p[k].0 == size by {
            assert((k + 1) * size <= q * size) by (nonlinear_arith)
                requires
                    k + 1 <= q,
                    size > 0,
            ;
            assert((k + 1) * size == k * size + size) by (nonlinear_arith);
        }
        assert((q + 1) * size == q * size + size) by (nonlinear_arith);
    }
}

// ---------------------------------------------------------------------------
// Lineups and battle records
// ---------------------------------------------------------------------------

/// The hero uids of a lineup without its empty slots (uid 0).
pub open spec fn drop_zeros(s: Seq<i64>) -> Seq<i64>
    decreases s.len(),
{
    if s.len() == 0 {
        Seq::empty()
    } else {
        let rest = drop_zeros(s.drop_last());
        if s.last() != 0 {
            rest.push(s.last())
        } else {
            rest
        }
    }
}

pub fn nonzero_uids(v: &Vec<i64>) -> (r: Vec<i64>)
    ensures
        r@ == drop_zeros(v@),
{
    let mut r: Vec<i64> = Vec::new();
    let mut i: usize = 0;
    while i < v.len()
        invariant
            i <= v@.len(),
            r@ == drop_zeros(v@.take(i as int)),
        decreases v@.len() - i,
    {
        assert(v@.take(i + 1).drop_last() =~= v@.take(i as int));
        if v[i] != 0 {
            r.push(v[i]);
        }
        i = i + 1;
    }
    assert(v@.take(v@.len() as int) =~= v@);
    r
}

/// Dropping empty slots keeps every hero and leaves no empty slot.
pub proof fn lemma_drop_zeros(s: Seq<i64>)
    ensures
        forall|i: int| 0 <= i < drop_zeros(s).len() ==> drop_zeros(s)[i] != 0,
        forall|i: int| 0 <= i < s.len() && s[i] != 0 ==> drop_zeros(s).contains(s[i]),
        drop_zeros(s).len() <= s.len(),
        drop_zeros(drop_zeros(s)) == drop_zeros(s),
    decreases s.len(),
{
    if s.len() > 0 {
        let p = s.drop_last();
        lemma_drop_zeros(p);
        assert forall|i: int| 0 <= i < s.len() && s[i] != 0 implies drop_zeros(s).contains(s[i]) by {
            if i < s.len() - 1 {
                assert(p[i] == s[i]);
                let j = choose|j: int| 0 <= j < drop_zeros(p).len() && drop_zeros(p)[j] == s[i];
                assert(drop_zeros(s)[j] == s[i]);
            } else {
                assert(drop_zeros(s)[drop_zeros(s).len() - 1] == s[i]);
            }
        }
        if s.last() != 0 {
            assert(drop_zeros(s).drop_last() =~= drop_zeros(p));
        }
    }
}

/// The lineup of a cleared battle: main heroes and substitutes by uid.
#[derive(Debug, Clone)]
pub struct Lineup {
    pub heroes: Vec<i64>,
    pub subs: Vec<i64>,
}

/// The stored record of an episode: its round count and the JSON arrays of
/// hero uids it was cleared with.
#[derive(Debug, Clone)]
pub struct StoredRecord {
    pub record_round: i32,
    pub hero_list: String,
    pub sub_hero_list: String,
}

/// What `serde_json::from_str::<Vec<i64>>` gives for a text: the array's
/// integers, or `None` where the text is not a JSON array of `i64`.
pub uninterp spec fn json_i64_array(text: Seq<char>) -> Option<Seq<i64>>;

/// Declared so that serde_json's error can pass through the library.
#[verifier::external_type_specification]
#[verifier::external_body]
pub struct ExJsonError(serde_json::Error);

/// `serde_json::from_str::<Vec<i64>>`: the integers of a JSON array. The
/// result is a function of the text alone; nothing more is claimed of it.
#[verifier::external_body]
fn parse_json_i64_array(text: &str) -> (r: Result<Vec<i64>, serde_json::Error>)
    ensures
        match r {
            Ok(v) => json_i64_array(text@) == Some(v@),
            Err(_) => json_i64_array(text@) is None,
        },
{
    serde_json::from_str::<Vec<i64>>(text)
}

/// A list as read, or `None` where it did not parse.
fn parsed_list(r: Result<Vec<i64>, serde_json::Error>) -> (o: Option<Vec<i64>>)
    ensures
        match r {
            Ok(v) => o == Some(v),
            Err(_) => o is None,
        },
{
    match r {
        Ok(v) => Some(v),
        Err(_) => None,
    }
}

/// A stored lineup list, or the empty list where it does not parse.
pub open spec fn stored_list(parsed: Option<Seq<i64>>) -> Seq<i64> {
    match parsed {
        Some(v) => v,
        None => Seq::empty(),
    }
}

pub open spec fn stored_vec(parsed: Option<Vec<i64>>) -> Seq<i64> {
    match parsed {
        Some(v) => v@,
        None => Seq::empty(),
    }
}

/// A new battle replaces the stored record where it took fewer rounds, or
/// where its lineup (empty slots dropped; no lineup counts as empty) differs
/// from the stored one.
pub open spec fn spec_lineup_replaces(
    stored_round: i32,
    new_round: i32,
    new_main: Seq<i64>,
    new_sub: Seq<i64>,
    old_main: Seq<i64>,
    old_sub: Seq<i64>,
) -> bool {
    new_round < stored_round || new_main != old_main || new_sub != old_sub
}

pub open spec fn new_lists(lineup: Option<&Lineup>) -> (Seq<i64>, Seq<i64>) {
    match lineup {
        Some(l) => (drop_zeros(l.heroes@), drop_zeros(l.subs@)),
        None => (Seq::empty(), Seq::empty()),
    }
}

fn same_uids(a: &Vec<i64>, b: &Vec<i64>) -> (r: bool)
    ensures
        r == (a@ == b@),
{
    if a.len() != b.len() {
        return false;
    }
    let mut i: usize = 0;
    while i < a.len()
        invariant
            a@.len() == b@.len(),
            i <= a@.len(),
            forall|j: int| 0 <= j < i ==> a@[j] == b@[j],
        decreases a@.len() - i,
    {
        if a[i] != b[i] {
            return false;
        }
        i = i + 1;
    }
    assert(a@ =~= b@);
    true
}

/// Whether a new battle replaces a stored record, given the stored lists as
/// parsed (`None` where a list did not parse).
pub fn lineup_replaces(
    stored_round: i32,
    new_round: i32,
    lineup: Option<&Lineup>,
    old_main: Option<Vec<i64>>,
    old_sub: Option<Vec<i64>>,
) -> (r: bool)
    ensures
        r == spec_lineup_replaces(
            stored_round,
            new_round,
            new_lists(lineup).0,
            new_lists(lineup).1,
            stored_vec(old_main),
            stored_vec(old_sub),
        ),
{
    if new_round < stored_round {
        return true;
    }
    let (new_main, new_sub) = match lineup {
        Some(l) => (nonzero_uids(&l.heroes), nonzero_uids(&l.subs)),
        None => (Vec::new(), Vec::new()),
    };
    let om = match old_main {
        Some(v) => v,
        None => Vec::new(),
    };
    let os = match old_sub {
        Some(v) => v,
        None => Vec::new(),
    };
    !same_uids(&new_main, &om) || !same_uids(&new_sub, &os)
}

/// Whether a cleared battle should be saved as the episode's record: always
/// where none is stored, else as `lineup_replaces` decides on the stored
/// lists parsed as JSON arrays.
pub fn should_update_dungeon_record(
    stored: Option<&StoredRecord>,
    new_round: i32,
    lineup: Option<&Lineup>,
) -> (r: bool)
    ensures
        match stored {
            None => r,
            Some(s) => r == spec_lineup_replaces(
                s.record_round,
                new_round,
                new_lists(lineup).0,
                new_lists(lineup).1,
                stored_list(json_i64_array(s.hero_list@)),
                stored_list(json_i64_array(s.sub_hero_list@)),
            ),
        },
{
    match stored {
        None => true,
        Some(s) => {
            let old_main = parsed_list(parse_json_i64_array(s.hero_list.as_str()));
            let old_sub = parsed_list(parse_json_i64_array(s.sub_hero_list.as_str()));
            lineup_replaces(s.record_round, new_round, lineup, old_main, old_sub)
        },
    }
}

/// When a cleared battle replaces the stored record: always where it took
/// fewer rounds; otherwise exactly where its main lineup or its
/// substitutes, empty slots dropped, differ from the stored ones. A
/// different substitute lineup alone, or a different main lineup alone,
/// is enough.
pub proof fn lemma_record_replacement(
    stored_round: i32,
    new_round: i32,
    new_main: Seq<i64>,
    new_sub: Seq<i64>,
    old_main: Seq<i64>,
    old_sub: Seq<i64>,
)
    ensures
        new_round < stored_round ==> spec_lineup_replaces(stored_round, new_round, new_main, new_sub, old_main, old_sub),
        new_sub != old_sub ==> spec_lineup_replaces(stored_round, new_round, new_main, new_sub, old_main, old_sub),
        new_main != old_main ==> spec_lineup_replaces(stored_round, new_round, new_main, new_sub, old_main, old_sub),
        new_round >= stored_round && new_main == old_main && new_sub == old_sub ==> !spec_lineup_replaces(
            stored_round,
            new_round,
            new_main,
            new_sub,
            old_main,
            old_sub,
        ),
{
}

/// Empty slots (uid 0) take no part in a lineup: adding one at the end of a
/// list leaves the list that the record compares unchanged, and a list
/// without empty slots is compared as it is.
pub proof fn lemma_empty_slots_ignored(s: Seq<i64>)
    ensures
        drop_zeros(s.push(0)) == drop_zeros(s),
        (forall|k: int| 0 <= k < s.len() ==> s[k] != 0) ==> drop_zeros(s) == s,
    decreases s.len(),
{
    assert(s.push(0).drop_last() =~= s);
    if s.len() > 0 {
        lemma_empty_slots_ignored(s.drop_last());
        if forall|k: int| 0 <= k < s.len() ==> s[k] != 0 {
            assert(s.last() != 0);
            assert(drop_zeros(s.drop_last()) == s.drop_last());
            assert(s.drop_last().push(s.last()) =~= s);
        }
    }
}

/// The outfit a record is saved with: the battle's, or 1 where it has none.
pub fn record_cloth(cloth_id: Option<i32>) -> (r: i32)
    ensures
        r == (match cloth_id {
            Some(c) => c,
            None => 1,
        }),
{
    match cloth_id {
        Some(c) => c,
        None => 1,
    }
}

} // verus!
