//! The generated data tables: rows kept in file order, with an index from
//! id to row. Where several rows share an id, the last one is found.
use vstd::prelude::*;
use std::collections::HashMap;

verus! {

broadcast use vstd::std_specs::hash::group_hash_axioms;

/// A character of the roguelike activity 191.
#[derive(Debug, Clone)]
pub struct Activity191Role {
    pub active_skill1: String,
    pub active_skill2: String,
    pub activity_id: i32,
    pub career: i32,
    pub dmg_type: i32,
    pub ex_level: i32,
    pub facets_id: String,
    pub gender: i32,
    pub id: i32,
    pub name: String,
    pub passive_skill: String,
    pub power_max: String,
    pub quality: i32,
    pub role_id: i32,
    pub skin_id: i32,
    pub star: i32,
    pub tag: String,
    pub template: i32,
    pub role_type: String,
    pub unique_skill: i32,
    pub unique_skill_point: String,
    pub weight: i32,
}

/// Row `i` is the last row with id `id`.
pub open spec fn last_with_id(rows: Seq<Activity191Role>, id: i32, i: int) -> bool {
    &&& 0 <= i < rows.len()
    &&& rows[i].id == id
    &&& forall|j: int| i < j < rows.len() ==> rows[j].id != id
}

pub open spec fn has_id(rows: Seq<Activity191Role>, id: i32) -> bool {
    exists|j: int| 0 <= j < rows.len() && rows[j].id == id
}

/// The activity-191 character table.
pub struct Activity191RoleTable {
    records: Vec<Activity191Role>,
    by_id: HashMap<i32, usize>,
}

impl Activity191RoleTable {
    /// The rows, in file order.
    pub closed spec fn rows(&self) -> Seq<Activity191Role> {
        self.records@
    }

    /// The index sends each id to the last row that has it, and no other
    /// id anywhere.
    pub closed spec fn wf(&self) -> bool {
        &&& forall|id: i32| #[trigger]
            self.by_id@.contains_key(id) <==> has_id(self.records@, id)
        &&& forall|id: i32| #[trigger]
            self.by_id@.contains_key(id) ==> last_with_id(
                self.records@,
                id,
                self.by_id@[id] as int,
            )
    }

    /// Builds the table from its rows.
    pub fn load(records: Vec<Activity191Role>) -> (t: Self)
        ensures
            t.wf(),
            t.rows() == records@,
    {
        let mut by_id: HashMap<i32, usize> = HashMap::new();
        let mut i: usize = 0;
        while i < records.len()
            invariant
                i <= records@.len(),
                forall|id: i32| #[trigger]
                    by_id@.contains_key(id) <==> has_id(records@.take(i as int), id),
                forall|id: i32| #[trigger]
                    by_id@.contains_key(id) ==> last_with_id(
                        records@.take(i as int),
                        id,
                        by_id@[id] as int,
                    ),
            decreases records@.len() - i,
        {
            let id = records[i].id;
            by_id.insert(id, i);
            proof {
                let before = records@.take(i as int);
                let after = records@.take(i + 1);
                assert forall|k: i32| #[trigger] by_id@.contains_key(k) <==> has_id(after, k) by {
                    if k == id {
                        assert(after[i as int].id == id);
                    } else if has_id(after, k) {
                        let j = choose|j: int| 0 <= j < after.len() && after[j].id == k;
                        assert(before[j].id == k);
                    } else if has_id(before, k) {
                        let j = choose|j: int| 0 <= j < before.len() && before[j].id == k;
                        assert(after[j].id == k);
                    }
                }
                assert forall|k: i32| #[trigger] by_id@.contains_key(k) implies last_with_id(
                    after,
                    k,
                    by_id@[k] as int,
                ) by {
                    if k != id {
                        let p = by_id@[k] as int;
                        assert(last_with_id(before, k, p));
                        assert forall|j: int| p < j < after.len() implies after[j].id != k by {
                            if j < i {
                                assert(before[j].id != k);
                            }
                        }
                    }
                }
            }
            i = i + 1;
        }
        assert(records@.take(records@.len() as int) =~= records@);
        Activity191RoleTable { records, by_id }
    }

    /// The row with this id (the last one where several have it).
    pub fn get(&self, id: i32) -> (r: Option<&Activity191Role>)
        requires
            self.wf(),
        ensures
            r is None <==> !has_id(self.rows(), id),
            r matches Some(row) ==> exists|i: int| last_with_id(self.rows(), id, i) && *row == self.rows()[i],
    {
        match self.by_id.get(&id) {
            Some(i) => {
                let k = *i;
                assert(last_with_id(self.records@, id, k as int));
                Some(&self.records[k])
            },
            None => None,
        }
    }

    /// All rows, in file order.
    pub fn all(&self) -> (r: &[Activity191Role])
        ensures
            r@ == self.rows(),
    {
        self.records.as_slice()
    }

    /// An iterator over the rows, in file order.
    pub fn iter(&self) -> (r: std::slice::Iter<'_, Activity191Role>)
        ensures
            vstd::std_specs::slice::into_iter_elts(r) == self.rows(),
    {
        self.records.as_slice().iter()
    }

    pub fn len(&self) -> (n: usize)
        ensures
            n == self.rows().len(),
    {
        self.records.len()
    }

    pub fn is_empty(&self) -> (b: bool)
        ensures
            b == (self.rows().len() == 0),
    {
        self.records.len() == 0
    }
}

/// The generated tables of the game database. The generator emits no table
/// into it here, so it holds none.
pub struct GameDB {}

impl GameDB {
    /// Loads the database from the data directory.
    pub fn load(data_dir: &str) -> (r: Result<GameDB, ()>)
        ensures
            r is Ok,
    {
        Ok(GameDB {})
    }
}

} // verus!
