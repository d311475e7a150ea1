//! JSON documents as the starter data of a new account holds them, and the
//! lookups that read them: a field of an object, a number, a flag, a text
//! or an array, with the default that a missing or mistyped field gets.
use vstd::prelude::*;
use crate::text::{chars_eq, chars_of, parse_i32, spec_parse_i32};
use chrono::TimeZone;

verus! {

/// A JSON value. A number keeps what the readers ask of it: its value as
/// an `i64` and as a `u64`, where it is a whole number in range.
#[derive(Debug)]
pub enum Json {
    Null,
    Bool(bool),
    Number { as_i64: Option<i64>, as_u64: Option<u64> },
    Str(String),
    Array(Vec<Json>),
    Object(Vec<(String, Json)>),
}

/// Entry `i` is the first entry of an object with this key.
pub open spec fn key_at(entries: Seq<(String, Json)>, key: Seq<char>, i: int) -> bool {
    &&& 0 <= i < entries.len()
    &&& entries[i].0@ == key
    &&& forall|j: int| 0 <= j < i ==> entries[j].0@ != key
}

/// The value of an object's field (`Value::get`); `None` for a missing key
/// or a value that is no object.
pub open spec fn spec_get(v: Json, key: Seq<char>) -> Option<Json> {
    match v {
        Json::Object(es) => spec_find(es@, key),
        _ => None,
    }
}

/// The value of the first entry with this key.
pub open spec fn spec_find(es: Seq<(String, Json)>, key: Seq<char>) -> Option<Json> {
    if exists|i: int| key_at(es, key, i) {
        Some(es[choose|i: int| key_at(es, key, i)].1)
    } else {
        None
    }
}

pub open spec fn spec_as_i64(v: Option<Json>) -> Option<i64> {
    match v {
        Some(Json::Number { as_i64, as_u64 }) => as_i64,
        _ => None,
    }
}

pub open spec fn spec_as_u64(v: Option<Json>) -> Option<u64> {
    match v {
        Some(Json::Number { as_i64, as_u64 }) => as_u64,
        _ => None,
    }
}

pub open spec fn spec_as_bool(v: Option<Json>) -> Option<bool> {
    match v {
        Some(Json::Bool(b)) => Some(b),
        _ => None,
    }
}

pub open spec fn spec_as_str(v: Option<Json>) -> Option<Seq<char>> {
    match v {
        Some(Json::Str(s)) => Some(s@),
        _ => None,
    }
}

pub open spec fn spec_as_array(v: Option<Json>) -> Option<Seq<Json>> {
    match v {
        Some(Json::Array(a)) => Some(a@),
        _ => None,
    }
}

/// An integer field, or `default` where it is missing or no integer.
pub open spec fn int_or(v: Json, key: Seq<char>, default: i64) -> i64 {
    match spec_as_i64(spec_get(v, key)) {
        Some(n) => n,
        None => default,
    }
}

impl Json {
    /// The value of a field of an object.
    pub fn get(&self, key: &str) -> (r: Option<&Json>)
        ensures
            match r {
                Some(x) => spec_get(*self, key@) == Some(*x),
                None => spec_get(*self, key@) is None,
            },
    {
        match self {
            Json::Object(es) => {
                let k = chars_of(key);
                let mut i: usize = 0;
                while i < es.len()
                    invariant
                        *self == Json::Object(*es),
                        i <= es@.len(),
                        k@ == key@,
                        forall|j: int| 0 <= j < i ==> es@[j].0@ != key@,
                    decreases es@.len() - i,
                {
                    let name = chars_of(es[i].0.as_str());
                    if chars_eq(name.as_slice(), k.as_slice()) {
                        proof {
                            assert(es@[i as int].0@ == key@);
                            assert(key_at(es@, key@, i as int));
                            let c = choose|c: int| key_at(es@, key@, c);
                            assert(c == i) by {
                                if c < i {
                                    assert(es@[c].0@ != key@);
                                } else if c > i {
                                    assert(es@[i as int].0@ != key@);
                                }
                            }
                            assert(spec_find(es@, key@) == Some(es@[i as int].1));
                            assert(spec_get(*self, key@) == Some(es@[i as int].1));
                        }
                        return Some(&es[i].1);
                    }
                    i = i + 1;
                }
                None
            },
            _ => None,
        }
    }

    pub fn as_i64(&self) -> (r: Option<i64>)
        ensures
            r == spec_as_i64(Some(*self)),
    {
        match self {
            Json::Number { as_i64, as_u64 } => *as_i64,
            _ => None,
        }
    }

    pub fn as_u64(&self) -> (r: Option<u64>)
        ensures
            r == spec_as_u64(Some(*self)),
    {
        match self {
            Json::Number { as_i64, as_u64 } => *as_u64,
            _ => None,
        }
    }

    pub fn as_bool(&self) -> (r: Option<bool>)
        ensures
            r == spec_as_bool(Some(*self)),
    {
        match self {
            Json::Bool(b) => Some(*b),
            _ => None,
        }
    }

    pub fn as_str(&self) -> (r: Option<&str>)
        ensures
            match r {
                Some(s) => spec_as_str(Some(*self)) == Some(s@),
                None => spec_as_str(Some(*self)) is None,
            },
    {
        match self {
            Json::Str(s) => Some(s.as_str()),
            _ => None,
        }
    }

    pub fn as_array(&self) -> (r: Option<&Vec<Json>>)
        ensures
            match r {
                Some(a) => spec_as_array(Some(*self)) == Some(a@),
                None => spec_as_array(Some(*self)) is None,
            },
    {
        match self {
            Json::Array(a) => Some(a),
            _ => None,
        }
    }

    /// The entries of an object, where it is one.
    pub fn as_object(&self) -> (r: Option<&Vec<(String, Json)>>)
        ensures
            match r {
                Some(es) => *self == Json::Object(*es),
                None => !(*self is Object),
            },
    {
        match self {
            Json::Object(es) => Some(es),
            _ => None,
        }
    }

    /// An integer field, or `default`.
    pub fn int_or(&self, key: &str, default: i64) -> (r: i64)
        ensures
            r == int_or(*self, key@, default),
    {
        match self.get(key) {
            Some(x) => match x.as_i64() {
                Some(n) => n,
                None => default,
            },
            None => default,
        }
    }

    /// An integer field or 0, truncated to 32 bits as `as i32` does.
    pub fn i32_or_zero(&self, key: &str) -> (r: i32)
        ensures
            r == int_or(*self, key@, 0) as i32,
    {
        let n = self.int_or(key, 0);
        #[verifier::truncate]
        (n as i32)
    }

    /// A flag field, or `default`.
    pub fn bool_or(&self, key: &str, default: bool) -> (r: bool)
        ensures
            r == (match spec_as_bool(spec_get(*self, key@)) {
                Some(b) => b,
                None => default,
            }),
    {
        match self.get(key) {
            Some(x) => match x.as_bool() {
                Some(b) => b,
                None => default,
            },
            None => default,
        }
    }

    /// A text field, or the empty text.
    pub fn str_or_empty(&self, key: &str) -> (r: String)
        ensures
            r@ == (match spec_as_str(spec_get(*self, key@)) {
                Some(s) => s,
                None => Seq::empty(),
            }),
    {
        match self.get(key) {
            Some(x) => match x.as_str() {
                Some(s) => s.to_owned(),
                None => String::new(),
            },
            None => String::new(),
        }
    }

    /// A text field holding a decimal `i32`, or 0 where it is missing or
    /// does not parse.
    pub fn str_i32_or_zero(&self, key: &str) -> (r: i32)
        ensures
            r == (match spec_as_str(spec_get(*self, key@)) {
                Some(s) => match spec_parse_i32(s) {
                    Some(n) => n,
                    None => 0,
                },
                None => 0,
            }),
    {
        match self.get(key) {
            Some(x) => match x.as_str() {
                Some(s) => {
                    let cs = chars_of(s);
                    match parse_i32(cs.as_slice()) {
                        Some(n) => n,
                        None => 0,
                    }
                },
                None => 0,
            },
            None => 0,
        }
    }

    /// An array field, where it is one.
    pub fn array_at(&self, key: &str) -> (r: Option<&Vec<Json>>)
        ensures
            match r {
                Some(a) => spec_as_array(spec_get(*self, key@)) == Some(a@),
                None => spec_as_array(spec_get(*self, key@)) is None,
            },
    {
        match self.get(key) {
            Some(x) => x.as_array(),
            None => None,
        }
    }

    /// Several integer fields at once, each 0 where missing.
    pub fn int_fields(&self, keys: &[&str]) -> (r: Vec<i64>)
        ensures
            r@.len() == keys@.len(),
            forall|k: int| 0 <= k < keys@.len() ==> #[trigger] r@[k] == int_or(*self, keys@[k]@, 0),
    {
        let mut r: Vec<i64> = Vec::new();
        let mut i: usize = 0;
        while i < keys.len()
            invariant
                i <= keys@.len(),
                r@.len() == i,
                forall|k: int| 0 <= k < i ==> #[trigger] r@[k] == int_or(*self, keys@[k]@, 0),
            decreases keys@.len() - i,
        {
            r.push(self.int_or(keys[i], 0));
            i = i + 1;
        }
        r
    }
}

/// The integers of an array, in order, skipping its other values.
pub open spec fn spec_ints(a: Seq<Json>) -> Seq<i64>
    decreases a.len(),
{
    if a.len() == 0 {
        Seq::empty()
    } else {
        let rest = spec_ints(a.drop_last());
        match spec_as_i64(Some(a.last())) {
            Some(n) => rest.push(n),
            None => rest,
        }
    }
}

pub fn ints_of(a: &Vec<Json>) -> (r: Vec<i64>)
    ensures
        r@ == spec_ints(a@),
{
    let mut r: Vec<i64> = Vec::new();
    let mut i: usize = 0;
    while i < a.len()
        invariant
            i <= a@.len(),
            r@ == spec_ints(a@.take(i as int)),
        decreases a@.len() - i,
    {
        assert(a@.take(i + 1).drop_last() =~= a@.take(i as int));
        match a[i].as_i64() {
            Some(n) => r.push(n),
            None => {},
        }
        i = i + 1;
    }
    assert(a@.take(a@.len() as int) =~= a@);
    r
}

/// The integers of an array with their positions in it, skipping its other
/// values.
pub open spec fn spec_indexed_ints(a: Seq<Json>) -> Seq<(int, i64)>
    decreases a.len(),
{
    if a.len() == 0 {
        Seq::empty()
    } else {
        let rest = spec_indexed_ints(a.drop_last());
        match spec_as_i64(Some(a.last())) {
            Some(n) => rest.push((a.len() - 1, n)),
            None => rest,
        }
    }
}

pub fn indexed_ints_of(a: &Vec<Json>) -> (r: Vec<(usize, i64)>)
    ensures
        r@.len() == spec_indexed_ints(a@).len(),
        forall|k: int|
            0 <= k < r@.len() ==> (#[trigger] r@[k]).0 == spec_indexed_ints(a@)[k].0 && r@[k].1
                == spec_indexed_ints(a@)[k].1,
{
    let mut r: Vec<(usize, i64)> = Vec::new();
    let mut i: usize = 0;
    while i < a.len()
        invariant
            i <= a@.len(),
            r@.len() == spec_indexed_ints(a@.take(i as int)).len(),
            forall|k: int|
                0 <= k < r@.len() ==> (#[trigger] r@[k]).0 == spec_indexed_ints(a@.take(i as int))[k].0
                    && r@[k].1 == spec_indexed_ints(a@.take(i as int))[k].1,
        decreases a@.len() - i,
    {
        assert(a@.take(i + 1).drop_last() =~= a@.take(i as int));
        match a[i].as_i64() {
            Some(n) => r.push((i, n)),
            None => {},
        }
        i = i + 1;
    }
    assert(a@.take(a@.len() as int) =~= a@);
    r
}

/// The texts of an array with their positions in it, skipping its other
/// values.
pub open spec fn spec_indexed_strs(a: Seq<Json>) -> Seq<(int, Seq<char>)>
    decreases a.len(),
{
    if a.len() == 0 {
        Seq::empty()
    } else {
        let rest = spec_indexed_strs(a.drop_last());
        match spec_as_str(Some(a.last())) {
            Some(t) => rest.push((a.len() - 1, t)),
            None => rest,
        }
    }
}

pub fn indexed_strs_of(a: &Vec<Json>) -> (r: Vec<(usize, String)>)
    ensures
        r@.len() == spec_indexed_strs(a@).len(),
        forall|k: int|
            0 <= k < r@.len() ==> (#[trigger] r@[k]).0 == spec_indexed_strs(a@)[k].0 && r@[k].1@
                == spec_indexed_strs(a@)[k].1,
{
    let mut r: Vec<(usize, String)> = Vec::new();
    let mut i: usize = 0;
    while i < a.len()
        invariant
            i <= a@.len(),
            r@.len() == spec_indexed_strs(a@.take(i as int)).len(),
            forall|k: int|
                0 <= k < r@.len() ==> (#[trigger] r@[k]).0 == spec_indexed_strs(a@.take(i as int))[k].0
                    && r@[k].1@ == spec_indexed_strs(a@.take(i as int))[k].1,
        decreases a@.len() - i,
    {
        assert(a@.take(i + 1).drop_last() =~= a@.take(i as int));
        match a[i].as_str() {
            Some(t) => r.push((i, t.to_owned())),
            None => {},
        }
        i = i + 1;
    }
    assert(a@.take(a@.len() as int) =~= a@);
    r
}

/// Skipping the other values keeps every integer once and invents none.
pub proof fn lemma_ints_of_len(a: Seq<Json>)
    ensures
        spec_ints(a).len() <= a.len(),
        spec_indexed_ints(a).len() == spec_ints(a).len(),
        forall|k: int|
            0 <= k < spec_indexed_ints(a).len() ==> 0 <= #[trigger] spec_indexed_ints(a)[k].0 < a.len()
                && spec_as_i64(Some(a[spec_indexed_ints(a)[k].0])) == Some(
                spec_indexed_ints(a)[k].1,
            ) && spec_ints(a)[k] == spec_indexed_ints(a)[k].1,
    decreases a.len(),
{
    if a.len() > 0 {
        lemma_ints_of_len(a.drop_last());
    }
}

// ---------------------------------------------------------------------------
// Parsing JSON text
// ---------------------------------------------------------------------------

/// Declared so that serde_json's values can be converted.
#[verifier::external_type_specification]
#[verifier::external_body]
pub struct ExJsonValue(serde_json::Value);

/// What serde_json reads from a text as a JSON value, held as the library's
/// `Json`; `None` where the text is no JSON.
pub uninterp spec fn parsed_json(text: Seq<char>) -> Option<Json>;

/// serde_json's `from_str::<Value>`, the value converted variant for variant
/// into `Json` (a number keeps serde_json's `as_i64` and `as_u64`, an object
/// its entries in serde_json's order). The result is a function of the text
/// alone; nothing more is claimed of it.
#[verifier::external_body]
pub(crate) fn parse_json(text: &str) -> (r: Option<Json>)
    ensures
        r == parsed_json(text@),
{
    match serde_json::from_str::<serde_json::Value>(text) {
        Ok(v) => Some(json_of_value(&v)),
        Err(_) => None,
    }
}

/// A JSON text read as the library's `Json`: the value serde_json reads
/// from it, or `None` where the text is no JSON.
pub fn json_from_text(text: &str) -> (r: Option<Json>)
    ensures
        r == parsed_json(text@),
{
    parse_json(text)
}

/// The conversion that `parse_json` applies: serde_json's value as `Json`,
/// variant for variant.
#[verifier::external_body]
fn json_of_value(v: &serde_json::Value) -> Json {
    match v {
        serde_json::Value::Null => Json::Null,
        serde_json::Value::Bool(b) => Json::Bool(*b),
        serde_json::Value::Number(n) => Json::Number { as_i64: n.as_i64(), as_u64: n.as_u64() },
        serde_json::Value::String(t) => Json::Str(t.clone()),
        serde_json::Value::Array(a) => Json::Array(a.iter().map(json_of_value).collect()),
        serde_json::Value::Object(m) => Json::Object(m.iter().map(|(k, x)| (k.clone(), json_of_value(x))).collect()),
    }
}

// ---------------------------------------------------------------------------
// Date and time texts
// ---------------------------------------------------------------------------

/// What chrono gives for a `YYYY-MM-DD HH:MM:SS` text read as UTC: its Unix
/// time in seconds, or `None` where it does not parse.
pub uninterp spec fn naive_utc_seconds(text: Seq<char>) -> Option<i64>;

/// chrono's `NaiveDateTime::parse_from_str(text, "%Y-%m-%d %H:%M:%S")`,
/// read as UTC (`Utc.from_utc_datetime(..).timestamp()`). The result is a
/// function of the text alone; nothing more is claimed of it.
#[verifier::external_body]
fn chrono_naive_utc_seconds(text: &str) -> (r: Option<i64>)
    ensures
        r == naive_utc_seconds(text@),
{
    match chrono::NaiveDateTime::parse_from_str(text, "%Y-%m-%d %H:%M:%S") {
        Ok(dt) => Some(chrono::Utc.from_utc_datetime(&dt).timestamp()),
        Err(_) => None,
    }
}

/// Seconds since the epoch of a `YYYY-MM-DD HH:MM:SS` UTC text, or 0 where
/// it does not parse.
pub fn parse_datetime_to_unix_sec(text: &str) -> (r: i64)
    ensures
        r == (match naive_utc_seconds(text@) {
            Some(s) => s,
            None => 0,
        }),
{
    match chrono_naive_utc_seconds(text) {
        Some(s) => s,
        None => 0,
    }
}

} // verus!
