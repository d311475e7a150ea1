//! Reading the rows of a starter asset. A `Shape` says what to read from a
//! JSON entry: integer fields (with their defaults), flags (with theirs),
//! texts, integer lists, text lists, and nested parts, each an array of
//! entries or a single object; `read_rows` reads exactly that.
use vstd::prelude::*;
use crate::json::{
    Json, int_or, ints_of, indexed_strs_of, spec_as_array, spec_as_bool, spec_as_str, spec_get,
    spec_indexed_strs, spec_ints,
};

verus! {

/// What to read from one entry. A part is `(key, single, shape)`: the
/// entries under `key`, an array of them or (with `single`) one object.
#[derive(Debug)]
pub struct Shape {
    pub ints: Vec<(&'static str, i64)>,
    pub flags: Vec<(&'static str, bool)>,
    pub texts: Vec<&'static str>,
    pub id_lists: Vec<&'static str>,
    pub text_lists: Vec<&'static str>,
    pub parts: Vec<(&'static str, bool, Shape)>,
}

/// What was read from one entry, in the order of its shape.
#[derive(Debug)]
pub struct Rows {
    pub ints: Vec<i64>,
    pub flags: Vec<bool>,
    pub texts: Vec<String>,
    /// Each list: its integers, in order.
    pub id_lists: Vec<Vec<i64>>,
    /// Each list: its texts with their positions in the array.
    pub text_lists: Vec<Vec<(usize, String)>>,
    /// Each part: what was read from each of its entries.
    pub parts: Vec<Vec<Rows>>,
}

/// A flag field, or `default`.
pub open spec fn flag_or(e: Json, key: Seq<char>, default: bool) -> bool {
    match spec_as_bool(spec_get(e, key)) {
        Some(b) => b,
        None => default,
    }
}

/// A text field, or the empty text.
pub open spec fn text_or_empty(e: Json, key: Seq<char>) -> Seq<char> {
    match spec_as_str(spec_get(e, key)) {
        Some(t) => t,
        None => Seq::empty(),
    }
}

/// An array field, or no entries.
pub open spec fn array_or_empty(e: Json, key: Seq<char>) -> Seq<Json> {
    match spec_as_array(spec_get(e, key)) {
        Some(a) => a,
        None => Seq::empty(),
    }
}

/// The entries of a part: the array under `key`, or (with `single`) the
/// object under `key` where there is one.
pub open spec fn entries_at(e: Json, key: Seq<char>, single: bool) -> Seq<Json> {
    if single {
        match spec_get(e, key) {
            Some(Json::Object(o)) => seq![Json::Object(o)],
            _ => Seq::empty(),
        }
    } else {
        array_or_empty(e, key)
    }
}

/// The plain fields of `r` are those that `s` asks of `e`.
pub open spec fn fields_of(r: Rows, e: Json, s: Shape) -> bool {
    &&& r.ints@.len() == s.ints@.len()
    &&& forall|k: int|
        0 <= k < s.ints@.len() ==> #[trigger] r.ints@[k] == int_or(e, s.ints@[k].0@, s.ints@[k].1)
    &&& r.flags@.len() == s.flags@.len()
    &&& forall|k: int|
        0 <= k < s.flags@.len() ==> #[trigger] r.flags@[k] == flag_or(e, s.flags@[k].0@, s.flags@[k].1)
    &&& r.texts@.len() == s.texts@.len()
    &&& forall|k: int| 0 <= k < s.texts@.len() ==> (#[trigger] r.texts@[k])@ == text_or_empty(e, s.texts@[k]@)
    &&& r.id_lists@.len() == s.id_lists@.len()
    &&& forall|k: int|
        0 <= k < s.id_lists@.len() ==> (#[trigger] r.id_lists@[k])@ == spec_ints(
            array_or_empty(e, s.id_lists@[k]@),
        )
    &&& r.text_lists@.len() == s.text_lists@.len()
    &&& forall|k: int|
        0 <= k < s.text_lists@.len() ==> texts_of(
            #[trigger] r.text_lists@[k],
            spec_indexed_strs(array_or_empty(e, s.text_lists@[k]@)),
        )
}

/// A list of positioned texts as read.
pub open spec fn texts_of(v: Vec<(usize, String)>, t: Seq<(int, Seq<char>)>) -> bool {
    &&& v@.len() == t.len()
    &&& forall|i: int| 0 <= i < t.len() ==> (#[trigger] v@[i]).0 == t[i].0 && v@[i].1@ == t[i].1
}

/// `r` is what shape `s` reads from entry `e`: its fields, and for each
/// part one reading per entry of the part, in order.
pub open spec fn rows_of(r: Rows, e: Json, s: Shape) -> bool
    decreases s,
{
    &&& fields_of(r, e, s)
    &&& r.parts@.len() == s.parts@.len()
    &&& forall|j: int|
        0 <= j < s.parts@.len() ==> (#[trigger] r.parts@[j])@.len() == entries_at(
            e,
            s.parts@[j].0@,
            s.parts@[j].1,
        ).len() && forall|i: int|
            0 <= i < r.parts@[j]@.len() ==> rows_of(
                #[trigger] r.parts@[j]@[i],
                entries_at(e, s.parts@[j].0@, s.parts@[j].1)[i],
                s.parts@[j].2,
            )
}

fn read_ints(e: &Json, keys: &Vec<(&'static str, i64)>) -> (r: Vec<i64>)
    ensures
        r@.len() == keys@.len(),
        forall|k: int| 0 <= k < keys@.len() ==> #[trigger] r@[k] == int_or(*e, keys@[k].0@, keys@[k].1),
{
    let mut r: Vec<i64> = Vec::new();
    let mut k: usize = 0;
    while k < keys.len()
        invariant
            k <= keys@.len(),
            r@.len() == k,
            forall|j: int| 0 <= j < k ==> #[trigger] r@[j] == int_or(*e, keys@[j].0@, keys@[j].1),
        decreases keys@.len() - k,
    {
        let (key, d) = keys[k];
        r.push(e.int_or(key, d));
        k = k + 1;
    }
    r
}

fn read_flags(e: &Json, keys: &Vec<(&'static str, bool)>) -> (r: Vec<bool>)
    ensures
        r@.len() == keys@.len(),
        forall|k: int| 0 <= k < keys@.len() ==> #[trigger] r@[k] == flag_or(*e, keys@[k].0@, keys@[k].1),
{
    let mut r: Vec<bool> = Vec::new();
    let mut k: usize = 0;
    while k < keys.len()
        invariant
            k <= keys@.len(),
            r@.len() == k,
            forall|j: int| 0 <= j < k ==> #[trigger] r@[j] == flag_or(*e, keys@[j].0@, keys@[j].1),
        decreases keys@.len() - k,
    {
        let (key, d) = keys[k];
        r.push(e.bool_or(key, d));
        k = k + 1;
    }
    r
}

fn read_texts(e: &Json, keys: &Vec<&'static str>) -> (r: Vec<String>)
    ensures
        r@.len() == keys@.len(),
        forall|k: int| 0 <= k < keys@.len() ==> (#[trigger] r@[k])@ == text_or_empty(*e, keys@[k]@),
{
    let mut r: Vec<String> = Vec::new();
    let mut k: usize = 0;
    while k < keys.len()
        invariant
            k <= keys@.len(),
            r@.len() == k,
            forall|j: int| 0 <= j < k ==> (#[trigger] r@[j])@ == text_or_empty(*e, keys@[j]@),
        decreases keys@.len() - k,
    {
        r.push(e.str_or_empty(keys[k]));
        k = k + 1;
    }
    r
}

fn read_id_lists(e: &Json, keys: &Vec<&'static str>) -> (r: Vec<Vec<i64>>)
    ensures
        r@.len() == keys@.len(),
        forall|k: int|
            0 <= k < keys@.len() ==> (#[trigger] r@[k])@ == spec_ints(array_or_empty(*e, keys@[k]@)),
{
    let mut r: Vec<Vec<i64>> = Vec::new();
    let mut k: usize = 0;
    while k < keys.len()
        invariant
            k <= keys@.len(),
            r@.len() == k,
            forall|j: int|
                0 <= j < k ==> (#[trigger] r@[j])@ == spec_ints(array_or_empty(*e, keys@[j]@)),
        decreases keys@.len() - k,
    {
        let list = match e.array_at(keys[k]) {
            Some(a) => ints_of(a),
            None => Vec::new(),
        };
        r.push(list);
        k = k + 1;
    }
    r
}

fn read_text_lists(e: &Json, keys: &Vec<&'static str>) -> (r: Vec<Vec<(usize, String)>>)
    ensures
        r@.len() == keys@.len(),
        forall|k: int|
            0 <= k < keys@.len() ==> texts_of(
                #[trigger] r@[k],
                spec_indexed_strs(array_or_empty(*e, keys@[k]@)),
            ),
{
    let mut r: Vec<Vec<(usize, String)>> = Vec::new();
    let mut k: usize = 0;
    while k < keys.len()
        invariant
            k <= keys@.len(),
            r@.len() == k,
            forall|j: int|
                0 <= j < k ==> texts_of(
                    #[trigger] r@[j],
                    spec_indexed_strs(array_or_empty(*e, keys@[j]@)),
                ),
        decreases keys@.len() - k,
    {
        let list = match e.array_at(keys[k]) {
            Some(a) => indexed_strs_of(a),
            None => Vec::new(),
        };
        r.push(list);
        k = k + 1;
    }
    r
}

/// Reads from entry `e` exactly what shape `s` asks of it.
pub fn read_rows(e: &Json, s: &Shape) -> (r: Rows)
    ensures
        rows_of(r, *e, *s),
    decreases s,
{
    let mut parts: Vec<Vec<Rows>> = Vec::new();
    let mut j: usize = 0;
    while j < s.parts.len()
        invariant
            j <= s.parts@.len(),
            parts@.len() == j,
            forall|m: int|
                0 <= m < j ==> (#[trigger] parts@[m])@.len() == entries_at(
                    *e,
                    s.parts@[m].0@,
                    s.parts@[m].1,
                ).len() && forall|i: int|
                    0 <= i < parts@[m]@.len() ==> rows_of(
                        #[trigger] parts@[m]@[i],
                        entries_at(*e, s.parts@[m].0@, s.parts@[m].1)[i],
                        s.parts@[m].2,
                    ),
        decreases s.parts@.len() - j,
    {
        let key = s.parts[j].0;
        let single = s.parts[j].1;
        let shape = &s.parts[j].2;
        let ghost es = entries_at(*e, key@, single);
        let mut rs: Vec<Rows> = Vec::new();
        if single {
            match e.get(key) {
                Some(x) => {
                    if x.as_object().is_some() {
                        let one = read_rows(x, shape);
                        rs.push(one);
                        assert(es =~= seq![*x]);
                    }
                },
                None => {},
            }
        } else {
            match e.array_at(key) {
                Some(a) => {
                    let mut i: usize = 0;
                    while i < a.len()
                        invariant
                            es == a@,
                            j < s.parts@.len(),
                            *shape == s.parts@[j as int].2,
                            i <= a@.len(),
                            rs@.len() == i,
                            forall|q: int| 0 <= q < i ==> rows_of(#[trigger] rs@[q], a@[q], *shape),
                        decreases a@.len() - i,
                    {
                        let one = read_rows(&a[i], shape);
                        rs.push(one);
                        i = i + 1;
                    }
                },
                None => {},
            }
        }
        parts.push(rs);
        j = j + 1;
    }
    Rows {
        ints: read_ints(e, &s.ints),
        flags: read_flags(e, &s.flags),
        texts: read_texts(e, &s.texts),
        id_lists: read_id_lists(e, &s.id_lists),
        text_lists: read_text_lists(e, &s.text_lists),
        parts,
    }
}

} // verus!
