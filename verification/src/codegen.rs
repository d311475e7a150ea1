//! The code generator of the data tables: the Rust source of a table store
//! (its struct, its loader and its lookups), emitted as text.
use vstd::prelude::*;
use crate::text::{chars_eq_str, chars_of, push_str};

verus! {

/// A field that a table is indexed by.
#[derive(Debug, Clone)]
pub struct IndexField {
    /// The field's name in snake case.
    pub field: String,
    /// The Rust type of the field.
    pub key_type: String,
    /// Whether some records lack the field.
    pub optional: bool,
}

/// What the generator knows of a table.
#[derive(Debug, Clone)]
pub struct TableLayout {
    /// The record struct's name in Pascal case.
    pub struct_name: String,
    /// The id field, where the table has one.
    pub id: Option<IndexField>,
    /// The group field, where the table is grouped by a scalar field.
    pub group: Option<IndexField>,
}

pub open spec fn type_or_i32(f: Option<IndexField>) -> Seq<char> {
    match f {
        Some(x) => x.key_type@,
        None => "i32"@,
    }
}

pub open spec fn when(c: bool, lines: Seq<Seq<char>>) -> Seq<Seq<char>> {
    if c {
        lines
    } else {
        Seq::empty()
    }
}

/// The lines that put a record into the id index.
pub open spec fn id_insert_lines(f: IndexField) -> Seq<Seq<char>> {
    let string_key = f.key_type@ == "String"@;
    if f.optional {
        seq![
            "            if let Some(id) = &record."@ + f.field@ + " {"@,
            if string_key {
                "                by_id.insert(id.clone(), idx);"@
            } else {
                "                by_id.insert(*id, idx);"@
            },
            "            }"@,
        ]
    } else if string_key {
        seq!["            by_id.insert(record."@ + f.field@ + ".clone(), idx);"@]
    } else {
        seq!["            by_id.insert(record."@ + f.field@ + ", idx);"@]
    }
}

/// The lines that put a record into its group.
pub open spec fn group_insert_lines(f: IndexField) -> Seq<Seq<char>> {
    let string_key = f.key_type@ == "String"@;
    if f.optional {
        seq![
            "            if let Some(group_id) = &record."@ + f.field@ + " {"@,
            if string_key {
                "                by_group.entry(group_id.clone()).or_default().push(idx);"@
            } else {
                "                by_group.entry(*group_id).or_default().push(idx);"@
            },
            "            }"@,
        ]
    } else if string_key {
        seq!["            by_group.entry(record."@ + f.field@ + ".clone()).or_default().push(idx);"@]
    } else {
        seq!["            by_group.entry(record."@ + f.field@ + ").or_default().push(idx);"@]
    }
}

/// The struct declaration.
pub open spec fn struct_lines(l: TableLayout) -> Seq<Seq<char>> {
    let s = l.struct_name@;
    let hid = l.id is Some;
    let hg = l.group is Some;
    when(hid || hg, seq!["use std::collections::HashMap;"@, ""@]) + seq![
        "pub struct "@ + s + "Table {"@,
        "    records: Vec<"@ + s + ">,"@,
    ] + when(hid, seq!["    by_id: HashMap<"@ + type_or_i32(l.id) + ", usize>,"@]) + when(
        hg,
        seq!["    by_group: HashMap<"@ + type_or_i32(l.group) + ", Vec<usize>>,"@],
    ) + seq!["}"@, ""@]
}

/// The loader, up to the parsed records.
pub open spec fn load_lines(l: TableLayout) -> Seq<Seq<char>> {
    let s = l.struct_name@;
    seq![
        "impl "@ + s + "Table {"@,
        "    pub fn load(path: &str) -> anyhow::Result<Self> {"@,
        "        let json = std::fs::read_to_string(path)?;"@,
        "        let value: serde_json::Value = serde_json::from_str(&json)?;"@,
        ""@,
        "        let records: Vec<"@ + s + "> = if let Some(array) = value.as_array() {"@,
        "            if array.len() >= 2 && array[1].is_array() {"@,
        "                serde_json::from_value(array[1].clone())?"@,
        "            } else {"@,
        "                serde_json::from_value(value)?"@,
        "            }"@,
        "        } else {"@,
        "            serde_json::from_value(value)?"@,
        "        };"@,
        ""@,
    ]
}

/// The loop that builds the indexes.
pub open spec fn index_lines(l: TableLayout) -> Seq<Seq<char>> {
    let hid = l.id is Some;
    let hg = l.group is Some;
    when(
        hid || hg,
        when(hid, seq!["        let mut by_id = HashMap::with_capacity(records.len());"@]) + when(
            hg,
            seq![
                "        let mut by_group: HashMap<"@ + type_or_i32(l.group)
                    + ", Vec<usize>> = HashMap::new();"@,
            ],
        ) + seq![""@, "        for (idx, record) in records.iter().enumerate() {"@] + (match l.id {
            Some(f) => id_insert_lines(f),
            None => Seq::empty(),
        }) + (match l.group {
            Some(f) => group_insert_lines(f),
            None => Seq::empty(),
        }) + seq!["        }"@, ""@],
    )
}

/// The end of the loader.
pub open spec fn ok_lines(l: TableLayout) -> Seq<Seq<char>> {
    seq!["        Ok(Self {"@, "            records,"@] + when(
        l.id is Some,
        seq!["            by_id,"@],
    ) + when(l.group is Some, seq!["            by_group,"@]) + seq![
        "        })"@,
        "    }"@,
        ""@,
    ]
}

/// The lookups and the end of the impl.
pub open spec fn access_lines(l: TableLayout) -> Seq<Seq<char>> {
    let s = l.struct_name@;
    when(
        l.id is Some,
        seq![
            "    #[inline]"@,
            "    pub fn get(&self, id: "@ + type_or_i32(l.id) + ") -> Option<&"@ + s + "> {"@,
            "        self.by_id.get(&id).map(|&i| &self.records[i])"@,
            "    }"@,
            ""@,
        ],
    ) + when(
        l.group is Some,
        seq![
            "    pub fn by_group(&self, group_id: "@ + type_or_i32(l.group)
                + ") -> impl Iterator<Item = &'_ "@ + s + "> + '_ {"@,
            "        self.by_group"@,
            "            .get(&group_id)"@,
            "            .into_iter()"@,
            "            .flat_map(|idxs| idxs.iter())"@,
            "            .map(|&i| &self.records[i])"@,
            "    }"@,
            ""@,
        ],
    ) + seq![
        "    #[inline]"@,
        "    pub fn all(&self) -> &["@ + s + "] {"@,
        "        &self.records"@,
        "    }"@,
        ""@,
        "    #[inline]"@,
        "    pub fn iter(&self) -> std::slice::Iter<'_, "@ + s + "> {"@,
        "        self.records.iter()"@,
        "    }"@,
        ""@,
        "    pub fn len(&self) -> usize { self.records.len() }"@,
        "    pub fn is_empty(&self) -> bool { self.records.is_empty() }"@,
        "}"@,
    ]
}

/// All lines of a table store.
pub open spec fn table_lines(l: TableLayout) -> Seq<Seq<char>> {
    struct_lines(l) + load_lines(l) + index_lines(l) + ok_lines(l) + access_lines(l)
}

/// Lines joined with `\n` between them.
pub open spec fn joined(lines: Seq<Seq<char>>) -> Seq<char>
    decreases lines.len(),
{
    if lines.len() == 0 {
        Seq::empty()
    } else if lines.len() == 1 {
        lines[0]
    } else {
        joined(lines.drop_last()) + seq!['\n'] + lines.last()
    }
}

pub open spec fn line_views(v: Seq<String>) -> Seq<Seq<char>> {
    Seq::new(v.len(), |i: int| v[i]@)
}

fn push_line(out: &mut Vec<String>, s: String)
    ensures
        line_views(final(out)@) == line_views(old(out)@).push(s@),
{
    let ghost before = out@;
    out.push(s);
    assert(line_views(out@) =~= line_views(before).push(s@));
}

/// Adds the literal lines `ls` in order.
fn push_lits(out: &mut Vec<String>, ls: &[&str])
    ensures
        line_views(final(out)@) == line_views(old(out)@) + Seq::new(
            ls@.len(),
            |i: int| ls@[i]@,
        ),
{
    let ghost start = line_views(out@);
    let mut i: usize = 0;
    while i < ls.len()
        invariant
            i <= ls@.len(),
            line_views(out@) == start + Seq::new(i as nat, |k: int| ls@[k]@),
        decreases ls@.len() - i,
    {
        push_line(out, ls[i].to_owned());
        i = i + 1;
        assert(Seq::new(i as nat, |k: int| ls@[k]@) =~= Seq::new((i - 1) as nat, |k: int| ls@[k]@).push(
            ls@[i - 1]@,
        ));
    }
}

fn cat3(a: &str, b: &str, c: &str) -> (s: String)
    ensures
        s@ == a@ + b@ + c@,
{
    let mut s = a.to_owned();
    push_str(&mut s, b);
    push_str(&mut s, c);
    s
}

fn cat5(a: &str, b: &str, c: &str, d: &str, e: &str) -> (s: String)
    ensures
        s@ == a@ + b@ + c@ + d@ + e@,
{
    let mut s = cat3(a, b, c);
    push_str(&mut s, d);
    push_str(&mut s, e);
    s
}

fn key_type_or_i32(f: &Option<IndexField>) -> (s: &str)
    ensures
        s@ == type_or_i32(*f),
{
    match f {
        Some(x) => x.key_type.as_str(),
        None => "i32",
    }
}

fn is_string_type(t: &String) -> (r: bool)
    ensures
        r == (t@ == "String"@),
{
    let cs = chars_of(t.as_str());
    chars_eq_str(cs.as_slice(), "String")
}

fn push_id_insert(out: &mut Vec<String>, f: &IndexField)
    ensures
        line_views(final(out)@) == line_views(old(out)@) + id_insert_lines(*f),
{
    let ghost start = line_views(out@);
    let string_key = is_string_type(&f.key_type);
    if f.optional {
        push_line(out, cat3("            if let Some(id) = &record.", f.field.as_str(), " {"));
        if string_key {
            push_line(out, "                by_id.insert(id.clone(), idx);".to_owned());
        } else {
            push_line(out, "                by_id.insert(*id, idx);".to_owned());
        }
        push_line(out, "            }".to_owned());
    } else if string_key {
        push_line(out, cat3("            by_id.insert(record.", f.field.as_str(), ".clone(), idx);"));
    } else {
        push_line(out, cat3("            by_id.insert(record.", f.field.as_str(), ", idx);"));
    }
    assert(line_views(out@) =~= start + id_insert_lines(*f));
}

fn push_group_insert(out: &mut Vec<String>, f: &IndexField)
    ensures
        line_views(final(out)@) == line_views(old(out)@) + group_insert_lines(*f),
{
    let ghost start = line_views(out@);
    let string_key = is_string_type(&f.key_type);
    if f.optional {
        push_line(out, cat3("            if let Some(group_id) = &record.", f.field.as_str(), " {"));
        if string_key {
            push_line(
                out,
                "                by_group.entry(group_id.clone()).or_default().push(idx);".to_owned(),
            );
        } else {
            push_line(out, "                by_group.entry(*group_id).or_default().push(idx);".to_owned());
        }
        push_line(out, "            }".to_owned());
    } else if string_key {
        push_line(
            out,
            cat3("            by_group.entry(record.", f.field.as_str(), ".clone()).or_default().push(idx);"),
        );
    } else {
        push_line(
            out,
            cat3("            by_group.entry(record.", f.field.as_str(), ").or_default().push(idx);"),
        );
    }
    assert(line_views(out@) =~= start + group_insert_lines(*f));
}

fn push_struct(out: &mut Vec<String>, l: &TableLayout)
    ensures
        line_views(final(out)@) == line_views(old(out)@) + struct_lines(*l),
{
    let ghost start = line_views(out@);
    let s = l.struct_name.as_str();
    let hid = l.id.is_some();
    let hg = l.group.is_some();
    if hid || hg {
        push_line(out, "use std::collections::HashMap;".to_owned());
        push_line(out, "".to_owned());
    }
    push_line(out, cat3("pub struct ", s, "Table {"));
    push_line(out, cat3("    records: Vec<", s, ">,"));
    if hid {
        push_line(out, cat3("    by_id: HashMap<", key_type_or_i32(&l.id), ", usize>,"));
    }
    if hg {
        push_line(out, cat3("    by_group: HashMap<", key_type_or_i32(&l.group), ", Vec<usize>>,"));
    }
    push_line(out, "}".to_owned());
    push_line(out, "".to_owned());
    assert(line_views(out@) =~= start + struct_lines(*l));
}

fn push_load(out: &mut Vec<String>, l: &TableLayout)
    ensures
        line_views(final(out)@) == line_views(old(out)@) + load_lines(*l),
{
    let ghost start = line_views(out@);
    let s = l.struct_name.as_str();
    push_line(out, cat3("impl ", s, "Table {"));
    push_lits(
        out,
        &[
            "    pub fn load(path: &str) -> anyhow::Result<Self> {",
            "        let json = std::fs::read_to_string(path)?;",
            "        let value: serde_json::Value = serde_json::from_str(&json)?;",
            "",
        ],
    );
    push_line(out, cat3("        let records: Vec<", s, "> = if let Some(array) = value.as_array() {"));
    push_lits(
        out,
        &[
            "            if array.len() >= 2 && array[1].is_array() {",
            "                serde_json::from_value(array[1].clone())?",
            "            } else {",
            "                serde_json::from_value(value)?",
            "            }",
            "        } else {",
            "            serde_json::from_value(value)?",
            "        };",
            "",
        ],
    );
    assert(line_views(out@) =~= start + load_lines(*l));
}

fn push_index(out: &mut Vec<String>, l: &TableLayout)
    ensures
        line_views(final(out)@) == line_views(old(out)@) + index_lines(*l),
{
    let ghost start = line_views(out@);
    let hid = l.id.is_some();
    let hg = l.group.is_some();
    if hid || hg {
        if hid {
            push_line(out, "        let mut by_id = HashMap::with_capacity(records.len());".to_owned());
        }
        if hg {
            push_line(
                out,
                cat3(
                    "        let mut by_group: HashMap<",
                    key_type_or_i32(&l.group),
                    ", Vec<usize>> = HashMap::new();",
                ),
            );
        }
        push_line(out, "".to_owned());
        push_line(out, "        for (idx, record) in records.iter().enumerate() {".to_owned());
        match &l.id {
            Some(f) => push_id_insert(out, f),
            None => {},
        }
        match &l.group {
            Some(f) => push_group_insert(out, f),
            None => {},
        }
        push_line(out, "        }".to_owned());
        push_line(out, "".to_owned());
    }
    assert(line_views(out@) =~= start + index_lines(*l));
}

fn push_ok(out: &mut Vec<String>, l: &TableLayout)
    ensures
        line_views(final(out)@) == line_views(old(out)@) + ok_lines(*l),
{
    let ghost start = line_views(out@);
    push_line(out, "        Ok(Self {".to_owned());
    push_line(out, "            records,".to_owned());
    if l.id.is_some() {
        push_line(out, "            by_id,".to_owned());
    }
    if l.group.is_some() {
        push_line(out, "            by_group,".to_owned());
    }
    push_line(out, "        })".to_owned());
    push_line(out, "    }".to_owned());
    push_line(out, "".to_owned());
    assert(line_views(out@) =~= start + ok_lines(*l));
}

fn push_access(out: &mut Vec<String>, l: &TableLayout)
    ensures
        line_views(final(out)@) == line_views(old(out)@) + access_lines(*l),
{
    let ghost start = line_views(out@);
    let s = l.struct_name.as_str();
    if l.id.is_some() {
        push_line(out, "    #[inline]".to_owned());
        push_line(out, cat5("    pub fn get(&self, id: ", key_type_or_i32(&l.id), ") -> Option<&", s, "> {"));
        push_line(out, "        self.by_id.get(&id).map(|&i| &self.records[i])".to_owned());
        push_line(out, "    }".to_owned());
        push_line(out, "".to_owned());
    }
    if l.group.is_some() {
        push_line(
            out,
            cat5(
                "    pub fn by_group(&self, group_id: ",
                key_type_or_i32(&l.group),
                ") -> impl Iterator<Item = &'_ ",
                s,
                "> + '_ {",
            ),
        );
        push_lits(
            out,
            &[
                "        self.by_group",
                "            .get(&group_id)",
                "            .into_iter()",
                "            .flat_map(|idxs| idxs.iter())",
                "            .map(|&i| &self.records[i])",
                "    }",
                "",
            ],
        );
    }
    push_line(out, "    #[inline]".to_owned());
    push_line(out, cat3("    pub fn all(&self) -> &[", s, "] {"));
    push_lits(out, &["        &self.records", "    }", "", "    #[inline]"]);
    push_line(out, cat3("    pub fn iter(&self) -> std::slice::Iter<'_, ", s, "> {"));
    push_lits(
        out,
        &[
            "        self.records.iter()",
            "    }",
            "",
            "    pub fn len(&self) -> usize { self.records.len() }",
            "    pub fn is_empty(&self) -> bool { self.records.is_empty() }",
            "}",
        ],
    );
    assert(line_views(out@) =~= start + access_lines(*l));
}

/// Lines joined with `\n` between them.
pub fn join_lines(lines: &Vec<String>) -> (s: String)
    ensures
        s@ == joined(line_views(lines@)),
{
    let mut s = String::new();
    let mut i: usize = 0;
    while i < lines.len()
        invariant
            i <= lines@.len(),
            s@ == joined(line_views(lines@).take(i as int)),
        decreases lines@.len() - i,
    {
        proof {
            assert(line_views(lines@).take(i + 1).drop_last() =~= line_views(lines@).take(i as int));
        }
        if i > 0 {
            push_str(&mut s, "\n");
            proof {
                reveal_strlit("\n");
            }
        }
        push_str(&mut s, lines[i].as_str());
        proof {
            if i == 0 {
                assert(line_views(lines@).take(1) =~= seq![lines@[0]@]);
            }
        }
        i = i + 1;
    }
    assert(line_views(lines@).take(lines@.len() as int) =~= line_views(lines@));
    s
}

/// The Rust source of the store of one table: its lines joined with `\n`.
pub fn emit_table_store(l: &TableLayout) -> (src: String)
    ensures
        src@ == joined(table_lines(*l)),
{
    let mut out: Vec<String> = Vec::new();
    assert(line_views(out@) =~= Seq::<Seq<char>>::empty());
    push_struct(&mut out, l);
    push_load(&mut out, l);
    push_index(&mut out, l);
    push_ok(&mut out, l);
    push_access(&mut out, l);
    assert(line_views(out@) =~= table_lines(*l));
    join_lines(&out)
}

} // verus!
verus! {

/// What a generated table store holds: the `HashMap` import first where the
/// table has an index, a `get` by id where it has an id, a `by_group`
/// lookup where it has a group, and always `all`, `iter`, `len` and
/// `is_empty`.
pub proof fn lemma_table_store_parts(l: TableLayout)
    ensures
        (l.id is Some || l.group is Some) ==> table_lines(l)[0] == "use std::collections::HashMap;"@,
        !(l.id is Some || l.group is Some) ==> table_lines(l)[0] == "pub struct "@ + l.struct_name@
            + "Table {"@,
        l.id is Some ==> table_lines(l).contains(
            "    pub fn get(&self, id: "@ + type_or_i32(l.id) + ") -> Option<&"@ + l.struct_name@ + "> {"@,
        ),
        l.group is Some ==> table_lines(l).contains(
            "    pub fn by_group(&self, group_id: "@ + type_or_i32(l.group) + ") -> impl Iterator<Item = &'_ "@
                + l.struct_name@ + "> + '_ {"@,
        ),
        table_lines(l).contains("    pub fn all(&self) -> &["@ + l.struct_name@ + "] {"@),
        table_lines(l).contains("    pub fn iter(&self) -> std::slice::Iter<'_, "@ + l.struct_name@ + "> {"@),
        table_lines(l).contains("    pub fn len(&self) -> usize { self.records.len() }"@),
        table_lines(l).contains("    pub fn is_empty(&self) -> bool { self.records.is_empty() }"@),
{
    let pre = struct_lines(l) + load_lines(l) + index_lines(l) + ok_lines(l);
    let acc = access_lines(l);
    let t = table_lines(l);
    assert(t =~= pre + acc);
    assert(t[0] == struct_lines(l)[0]);
    let n = t.len();
    assert(acc.len() >= 13);
    assert(t[n - 12] == acc[acc.len() - 12]);
    assert(t[n - 7] == acc[acc.len() - 7]);
    assert(t[n - 3] == acc[acc.len() - 3]);
    assert(t[n - 2] == acc[acc.len() - 2]);
    if l.id is Some {
        assert(t[pre.len() as int + 1] == acc[1]);
    }
    if l.group is Some {
        let k: int = if l.id is Some { 5 } else { 0 };
        assert(t[pre.len() as int + k] == acc[k]);
    }
}


/// The character at `i` of a line, or `'\0'` past its end.
pub open spec fn char_at(x: Seq<char>, i: int) -> char {
    if 0 <= i < x.len() {
        x[i]
    } else {
        '\0'
    }
}

/// The kind of a generated line, told by a few of its characters: 1 the
/// `HashMap` import, 2 the `by_id` field, 3 `get`, 4 `by_group`, 5 `all`,
/// 6 `iter`, 7 `len`, 8 `is_empty`; 0 any other line.
pub open spec fn line_kind(x: Seq<char>) -> int {
    if char_at(x, 0) == 'u' {
        1
    } else if char_at(x, 4) == 'b' && char_at(x, 7) == 'i' {
        2
    } else if char_at(x, 4) == 'p' && char_at(x, 11) == 'g' {
        3
    } else if char_at(x, 4) == 'p' && char_at(x, 11) == 'b' {
        4
    } else if char_at(x, 4) == 'p' && char_at(x, 11) == 'a' {
        5
    } else if char_at(x, 4) == 'p' && char_at(x, 11) == 'i' && char_at(x, 12) == 't' {
        6
    } else if char_at(x, 4) == 'p' && char_at(x, 11) == 'l' && char_at(x, 12) == 'e' {
        7
    } else if char_at(x, 4) == 'p' && char_at(x, 11) == 'i' && char_at(x, 12) == 's' {
        8
    } else {
        0
    }
}

/// The `HashMap` import of a table store.
pub open spec fn import_line() -> Seq<char> {
    "use std::collections::HashMap;"@
}

/// The `by_id` field of a table store.
pub open spec fn by_id_field_line(l: TableLayout) -> Seq<char> {
    "    by_id: HashMap<"@ + type_or_i32(l.id) + ", usize>,"@
}

/// The head of the `get` lookup.
pub open spec fn get_line(l: TableLayout) -> Seq<char> {
    "    pub fn get(&self, id: "@ + type_or_i32(l.id) + ") -> Option<&"@ + l.struct_name@ + "> {"@
}

/// The head of the `by_group` lookup.
pub open spec fn by_group_line(l: TableLayout) -> Seq<char> {
    "    pub fn by_group(&self, group_id: "@ + type_or_i32(l.group) + ") -> impl Iterator<Item = &'_ "@
        + l.struct_name@ + "> + '_ {"@
}

/// The head of `all`.
pub open spec fn all_line(l: TableLayout) -> Seq<char> {
    "    pub fn all(&self) -> &["@ + l.struct_name@ + "] {"@
}

/// The head of `iter`.
pub open spec fn iter_line(l: TableLayout) -> Seq<char> {
    "    pub fn iter(&self) -> std::slice::Iter<'_, "@ + l.struct_name@ + "> {"@
}

/// The `len` method.
pub open spec fn len_line() -> Seq<char> {
    "    pub fn len(&self) -> usize { self.records.len() }"@
}

/// The `is_empty` method.
pub open spec fn is_empty_line() -> Seq<char> {
    "    pub fn is_empty(&self) -> bool { self.records.is_empty() }"@
}

proof fn lemma_target_kinds(l: TableLayout)
    ensures
        line_kind(import_line()) == 1,
        line_kind(by_id_field_line(l)) == 2,
        line_kind(get_line(l)) == 3,
        line_kind(by_group_line(l)) == 4,
        line_kind(all_line(l)) == 5,
        line_kind(iter_line(l)) == 6,
        line_kind(len_line()) == 7,
        line_kind(is_empty_line()) == 8,
{
    reveal_strlit("");
    reveal_strlit("            .flat_map(|idxs| idxs.iter())");
    reveal_strlit("            .get(&group_id)");
    reveal_strlit("            .into_iter()");
    reveal_strlit("            .map(|&i| &self.records[i])");
    reveal_strlit("        &self.records");
    reveal_strlit("        self.by_group");
    reveal_strlit("        self.by_id.get(&id).map(|&i| &self.records[i])");
    reveal_strlit("        self.records.iter()");
    reveal_strlit("    #[inline]");
    reveal_strlit("    by_group: HashMap<");
    reveal_strlit("    by_id: HashMap<");
    reveal_strlit("    pub fn all(&self) -> &[");
    reveal_strlit("    pub fn by_group(&self, group_id: ");
    reveal_strlit("    pub fn get(&self, id: ");
    reveal_strlit("    pub fn is_empty(&self) -> bool { self.records.is_empty() }");
    reveal_strlit("    pub fn iter(&self) -> std::slice::Iter<'_, ");
    reveal_strlit("    pub fn len(&self) -> usize { self.records.len() }");
    reveal_strlit("    records: Vec<");
    reveal_strlit("    }");
    reveal_strlit(") -> Option<&");
    reveal_strlit(") -> impl Iterator<Item = &'_ ");
    reveal_strlit(", Vec<usize>>,");
    reveal_strlit(", usize>,");
    reveal_strlit("> + '_ {");
    reveal_strlit("> {");
    reveal_strlit(">,");
    reveal_strlit("Table {");
    reveal_strlit("] {");
    reveal_strlit("pub struct ");
    reveal_strlit("use std::collections::HashMap;");
    reveal_strlit("}");
}

proof fn lemma_struct_kinds(l: TableLayout)
    ensures
        forall|k: int|
            0 <= k < struct_lines(l).len() ==> {
                let c = line_kind(#[trigger] struct_lines(l)[k]);
                &&& c == 1 ==> (l.id is Some || l.group is Some) && k == 0
                &&& c == 2 ==> l.id is Some && k == 4
                &&& c == 0 || c == 1 || c == 2
            },
{
    reveal_strlit("");
    reveal_strlit("    by_group: HashMap<");
    reveal_strlit("    by_id: HashMap<");
    reveal_strlit("    records: Vec<");
    reveal_strlit(", Vec<usize>>,");
    reveal_strlit(", usize>,");
    reveal_strlit(">,");
    reveal_strlit("Table {");
    reveal_strlit("pub struct ");
    reveal_strlit("use std::collections::HashMap;");
    reveal_strlit("}");
    let s = struct_lines(l);
    assert forall|k: int| 0 <= k < s.len() implies {
        let c = line_kind(#[trigger] s[k]);
        &&& c == 1 ==> (l.id is Some || l.group is Some) && k == 0
        &&& c == 2 ==> l.id is Some && k == 4
        &&& c == 0 || c == 1 || c == 2
    } by {
        if k == 0 {
        } else if k == 1 {
        } else if k == 2 {
        } else if k == 3 {
        } else if k == 4 {
        } else if k == 5 {
        } else if k == 6 {
        } else if k == 7 {
        }
    }
}

proof fn lemma_load_kinds(l: TableLayout)
    ensures
        forall|k: int| 0 <= k < load_lines(l).len() ==> line_kind(#[trigger] load_lines(l)[k]) == 0,
{
    reveal_strlit("");
    reveal_strlit("                serde_json::from_value(array[1].clone())?");
    reveal_strlit("                serde_json::from_value(value)?");
    reveal_strlit("            if array.len() >= 2 && array[1].is_array() {");
    reveal_strlit("            serde_json::from_value(value)?");
    reveal_strlit("            }");
    reveal_strlit("            } else {");
    reveal_strlit("        let json = std::fs::read_to_string(path)?;");
    reveal_strlit("        let records: Vec<");
    reveal_strlit("        let value: serde_json::Value = serde_json::from_str(&json)?;");
    reveal_strlit("        } else {");
    reveal_strlit("        };");
    reveal_strlit("    pub fn load(path: &str) -> anyhow::Result<Self> {");
    reveal_strlit("> = if let Some(array) = value.as_array() {");
    reveal_strlit("Table {");
    reveal_strlit("impl ");
    let s = load_lines(l);
    assert forall|k: int| 0 <= k < s.len() implies line_kind(#[trigger] s[k]) == 0 by {
        if k == 0 {
        } else if k == 1 {
        } else if k == 2 {
        } else if k == 3 {
        } else if k == 4 {
        } else if k == 5 {
        } else if k == 6 {
        } else if k == 7 {
        } else if k == 8 {
        } else if k == 9 {
        } else if k == 10 {
        } else if k == 11 {
        } else if k == 12 {
        } else if k == 13 {
        } else if k == 14 {
        }
    }
}

/// The lines that fill the id index, where the table has an id.
pub open spec fn id_inserts(l: TableLayout) -> Seq<Seq<char>> {
    match l.id {
        Some(f) => id_insert_lines(f),
        None => Seq::empty(),
    }
}

/// The lines that fill the groups, where the table has a group.
pub open spec fn group_inserts(l: TableLayout) -> Seq<Seq<char>> {
    match l.group {
        Some(f) => group_insert_lines(f),
        None => Seq::empty(),
    }
}

proof fn lemma_insert_kinds(l: TableLayout)
    ensures
        forall|k: int| 0 <= k < id_inserts(l).len() ==> line_kind(#[trigger] id_inserts(l)[k]) == 0,
        forall|k: int| 0 <= k < group_inserts(l).len() ==> line_kind(#[trigger] group_inserts(l)[k]) == 0,
{
    reveal_strlit("                by_group.entry(*group_id).or_default().push(idx);");
    reveal_strlit("                by_group.entry(group_id.clone()).or_default().push(idx);");
    reveal_strlit("                by_id.insert(*id, idx);");
    reveal_strlit("                by_id.insert(id.clone(), idx);");
    reveal_strlit("            by_group.entry(record.");
    reveal_strlit("            by_id.insert(record.");
    reveal_strlit("            if let Some(group_id) = &record.");
    reveal_strlit("            if let Some(id) = &record.");
    reveal_strlit("            }");
    reveal_strlit(" {");
    reveal_strlit(").or_default().push(idx);");
    reveal_strlit(", idx);");
    reveal_strlit(".clone()).or_default().push(idx);");
    reveal_strlit(".clone(), idx);");
    reveal_strlit("String");
    let a = id_inserts(l);
    let b = group_inserts(l);
    assert forall|k: int| 0 <= k < a.len() implies line_kind(#[trigger] a[k]) == 0 by {
        if k == 0 {
        } else if k == 1 {
        } else if k == 2 {
        }
    }
    assert forall|k: int| 0 <= k < b.len() implies line_kind(#[trigger] b[k]) == 0 by {
        if k == 0 {
        } else if k == 1 {
        } else if k == 2 {
        }
    }
}

proof fn lemma_index_kinds(l: TableLayout)
    ensures
        forall|k: int| 0 <= k < index_lines(l).len() ==> line_kind(#[trigger] index_lines(l)[k]) == 0,
{
    reveal_strlit("");
    reveal_strlit("        for (idx, record) in records.iter().enumerate() {");
    reveal_strlit("        let mut by_group: HashMap<");
    reveal_strlit("        let mut by_id = HashMap::with_capacity(records.len());");
    reveal_strlit("        }");
    reveal_strlit(", Vec<usize>> = HashMap::new();");
    lemma_insert_kinds(l);
    let a = id_inserts(l);
    let b = group_inserts(l);
    let head = when(l.id is Some, seq!["        let mut by_id = HashMap::with_capacity(records.len());"@]) + when(
        l.group is Some,
        seq![
            "        let mut by_group: HashMap<"@ + type_or_i32(l.group)
                + ", Vec<usize>> = HashMap::new();"@,
        ],
    ) + seq![""@, "        for (idx, record) in records.iter().enumerate() {"@];
    let tail = seq!["        }"@, ""@];
    assert forall|k: int| 0 <= k < head.len() implies line_kind(#[trigger] head[k]) == 0 by {
        if k == 0 {
        } else if k == 1 {
        } else if k == 2 {
        } else if k == 3 {
        }
    }
    assert forall|k: int| 0 <= k < tail.len() implies line_kind(#[trigger] tail[k]) == 0 by {
        if k == 0 {
        } else if k == 1 {
        }
    }
    let whole = head + a + b + tail;
    assert forall|k: int| 0 <= k < whole.len() implies line_kind(#[trigger] whole[k]) == 0 by {
        if k < head.len() {
            assert(whole[k] == head[k]);
        } else if k < head.len() + a.len() {
            assert(whole[k] == a[k - head.len()]);
        } else if k < head.len() + a.len() + b.len() {
            assert(whole[k] == b[k - head.len() - a.len()]);
        } else {
            assert(whole[k] == tail[k - head.len() - a.len() - b.len()]);
        }
    }
    if l.id is Some || l.group is Some {
        assert(index_lines(l) == whole);
    }
}

proof fn lemma_ok_kinds(l: TableLayout)
    ensures
        forall|k: int| 0 <= k < ok_lines(l).len() ==> line_kind(#[trigger] ok_lines(l)[k]) == 0,
{
    reveal_strlit("");
    reveal_strlit("            by_group,");
    reveal_strlit("            by_id,");
    reveal_strlit("            records,");
    reveal_strlit("        Ok(Self {");
    reveal_strlit("        })");
    reveal_strlit("    }");
    let s = ok_lines(l);
    assert forall|k: int| 0 <= k < s.len() implies line_kind(#[trigger] s[k]) == 0 by {
        if k == 0 {
        } else if k == 1 {
        } else if k == 2 {
        } else if k == 3 {
        } else if k == 4 {
        } else if k == 5 {
        } else if k == 6 {
        }
    }
}

/// Where each lookup of `access_lines` stands, by kind.
pub open spec fn access_kind_ok(l: TableLayout, a: Seq<Seq<char>>, k: int) -> bool {
    let c = line_kind(a[k]);
    &&& c == 3 ==> l.id is Some && k == 1
    &&& c == 4 ==> l.group is Some && k == (if l.id is Some { 5int } else { 0int })
    &&& c == 5 ==> k == a.len() - 12
    &&& c == 6 ==> k == a.len() - 7
    &&& c == 7 ==> k == a.len() - 3
    &&& c == 8 ==> k == a.len() - 2
    &&& c != 1 && c != 2
}

proof fn lemma_access_kinds(l: TableLayout)
    ensures
        forall|k: int| 0 <= k < access_lines(l).len() ==> #[trigger] access_kind_ok(l, access_lines(l), k),
{
    reveal_strlit("");
    reveal_strlit("            .flat_map(|idxs| idxs.iter())");
    reveal_strlit("            .get(&group_id)");
    reveal_strlit("            .into_iter()");
    reveal_strlit("            .map(|&i| &self.records[i])");
    reveal_strlit("        &self.records");
    reveal_strlit("        self.by_group");
    reveal_strlit("        self.by_id.get(&id).map(|&i| &self.records[i])");
    reveal_strlit("        self.records.iter()");
    reveal_strlit("    #[inline]");
    reveal_strlit("    pub fn all(&self) -> &[");
    reveal_strlit("    pub fn by_group(&self, group_id: ");
    reveal_strlit("    pub fn get(&self, id: ");
    reveal_strlit("    pub fn is_empty(&self) -> bool { self.records.is_empty() }");
    reveal_strlit("    pub fn iter(&self) -> std::slice::Iter<'_, ");
    reveal_strlit("    pub fn len(&self) -> usize { self.records.len() }");
    reveal_strlit("    }");
    reveal_strlit(") -> Option<&");
    reveal_strlit(") -> impl Iterator<Item = &'_ ");
    reveal_strlit("> + '_ {");
    reveal_strlit("> {");
    reveal_strlit("] {");
    reveal_strlit("}");
    let a = access_lines(l);
    assert forall|k: int| 0 <= k < a.len() implies #[trigger] access_kind_ok(l, a, k) by {
        if k == 0 {
        } else if k == 1 {
        } else if k == 2 {
        } else if k == 3 {
        } else if k == 4 {
        } else if k == 5 {
        } else if k == 6 {
        } else if k == 7 {
        } else if k == 8 {
        } else if k == 9 {
        } else if k == 10 {
        } else if k == 11 {
        } else if k == 12 {
        } else if k == 13 {
        } else if k == 14 {
        } else if k == 15 {
        } else if k == 16 {
        } else if k == 17 {
        } else if k == 18 {
        } else if k == 19 {
        } else if k == 20 {
        } else if k == 21 {
        } else if k == 22 {
        } else if k == 23 {
        } else if k == 24 {
        } else if k == 25 {
        }
    }
}


/// The lines of a table store before its lookups: the struct, the loader,
/// the index loop and the end of the loader.
pub open spec fn store_head(l: TableLayout) -> Seq<Seq<char>> {
    struct_lines(l) + load_lines(l) + index_lines(l) + ok_lines(l)
}

/// Where a line of the table store stands, by its kind.
pub open spec fn store_kind_ok(l: TableLayout, t: Seq<Seq<char>>, i: int) -> bool {
    let c = line_kind(t[i]);
    let h = store_head(l).len();
    &&& c == 1 ==> (l.id is Some || l.group is Some) && i == 0
    &&& c == 2 ==> l.id is Some && i == 4
    &&& c == 3 ==> l.id is Some && i == h + 1
    &&& c == 4 ==> l.group is Some && i == h + (if l.id is Some { 5int } else { 0int })
    &&& c == 5 ==> i == t.len() - 12
    &&& c == 6 ==> i == t.len() - 7
    &&& c == 7 ==> i == t.len() - 3
    &&& c == 8 ==> i == t.len() - 2
}

proof fn lemma_store_kinds(l: TableLayout)
    ensures
        forall|i: int| 0 <= i < table_lines(l).len() ==> #[trigger] store_kind_ok(l, table_lines(l), i),
{
    lemma_struct_kinds(l);
    lemma_load_kinds(l);
    lemma_index_kinds(l);
    lemma_ok_kinds(l);
    lemma_access_kinds(l);
    let st = struct_lines(l);
    let ld = load_lines(l);
    let ix = index_lines(l);
    let ok = ok_lines(l);
    let acc = access_lines(l);
    let t = table_lines(l);
    let h = store_head(l).len();
    assert(t =~= st + ld + ix + ok + acc);
    assert(h == st.len() + ld.len() + ix.len() + ok.len());
    assert forall|i: int| 0 <= i < t.len() implies #[trigger] store_kind_ok(l, t, i) by {
        if i < st.len() {
            assert(t[i] == st[i]);
        } else if i < st.len() + ld.len() {
            assert(t[i] == ld[i - st.len()]);
        } else if i < st.len() + ld.len() + ix.len() {
            assert(t[i] == ix[i - st.len() - ld.len()]);
        } else if i < h {
            assert(t[i] == ok[i - st.len() - ld.len() - ix.len()]);
        } else {
            assert(t[i] == acc[i - h]);
            assert(access_kind_ok(l, acc, i - h));
        }
    }
}

/// Each marked line of a generated table store stands exactly once where
/// the layout calls for it and nowhere otherwise: the `HashMap` import
/// (first) exactly when the table has an id or a group, the `by_id` field
/// and the `get` lookup exactly when it has an id, the `by_group` lookup
/// exactly when it has a group, and `all`, `iter`, `len` and `is_empty`
/// always.
pub proof fn lemma_table_store_lines_once(l: TableLayout)
    ensures
        ({
            let t = table_lines(l);
            let h = store_head(l).len();
            let hid = l.id is Some;
            let hg = l.group is Some;
            &&& t.contains(import_line()) <==> (hid || hg)
            &&& t.contains(by_id_field_line(l)) <==> hid
            &&& t.contains(get_line(l)) <==> hid
            &&& t.contains(by_group_line(l)) <==> hg
            &&& t.contains(all_line(l))
            &&& t.contains(iter_line(l))
            &&& t.contains(len_line())
            &&& t.contains(is_empty_line())
            &&& forall|i: int|
                0 <= i < t.len() ==> {
                    &&& (t[i] == import_line() <==> (hid || hg) && i == 0)
                    &&& (t[i] == by_id_field_line(l) <==> hid && i == 4)
                    &&& (t[i] == get_line(l) <==> hid && i == h + 1)
                    &&& (t[i] == by_group_line(l) <==> hg && i == h + (if hid { 5int } else { 0int }))
                    &&& (t[i] == all_line(l) <==> i == t.len() - 12)
                    &&& (t[i] == iter_line(l) <==> i == t.len() - 7)
                    &&& (t[i] == len_line() <==> i == t.len() - 3)
                    &&& (t[i] == is_empty_line() <==> i == t.len() - 2)
                }
        }),
{
    lemma_target_kinds(l);
    lemma_store_kinds(l);
    lemma_table_store_parts(l);
    let t = table_lines(l);
    let st = struct_lines(l);
    let acc = access_lines(l);
    let h: int = store_head(l).len() as int;
    let hid = l.id is Some;
    let hg = l.group is Some;
    assert(t =~= store_head(l) + acc);
    let n = t.len();
    assert(acc.len() >= 13);
    assert(t[n - 12] == acc[acc.len() - 12]);
    assert(t[n - 7] == acc[acc.len() - 7]);
    assert(t[n - 3] == acc[acc.len() - 3]);
    assert(t[n - 2] == acc[acc.len() - 2]);
    if hid || hg {
        assert(t[0] == st[0]);
    }
    if hid {
        assert(t[4] == st[4]);
        assert(t[h + 1] == acc[1]);
    }
    if hg {
        let k: int = if hid { 5 } else { 0 };
        assert(t[h + k] == acc[k]);
    }
    assert forall|i: int| 0 <= i < t.len() implies {
        &&& (t[i] == import_line() <==> (hid || hg) && i == 0)
        &&& (t[i] == by_id_field_line(l) <==> hid && i == 4)
        &&& (t[i] == get_line(l) <==> hid && i == h + 1)
        &&& (t[i] == by_group_line(l) <==> hg && i == h + (if hid { 5int } else { 0int }))
        &&& (t[i] == all_line(l) <==> i == t.len() - 12)
        &&& (t[i] == iter_line(l) <==> i == t.len() - 7)
        &&& (t[i] == len_line() <==> i == t.len() - 3)
        &&& (t[i] == is_empty_line() <==> i == t.len() - 2)
    } by {
        assert(store_kind_ok(l, t, i));
    }
    if t.contains(import_line()) {
        let i = choose|i: int| 0 <= i < t.len() && t[i] == import_line();
        assert(store_kind_ok(l, t, i));
    }
    if t.contains(by_id_field_line(l)) {
        let i = choose|i: int| 0 <= i < t.len() && t[i] == by_id_field_line(l);
        assert(store_kind_ok(l, t, i));
    }
    if t.contains(get_line(l)) {
        let i = choose|i: int| 0 <= i < t.len() && t[i] == get_line(l);
        assert(store_kind_ok(l, t, i));
    }
    if t.contains(by_group_line(l)) {
        let i = choose|i: int| 0 <= i < t.len() && t[i] == by_group_line(l);
        assert(store_kind_ok(l, t, i));
    }
}

} // verus!
