use sonetto::codegen::{emit_table_store, IndexField, TableLayout};
use sonetto::json::{indexed_ints_of, ints_of, parse_datetime_to_unix_sec, Json};

fn num(n: i64) -> Json {
    Json::Number { as_i64: Some(n), as_u64: if n >= 0 { Some(n as u64) } else { None } }
}

fn obj(entries: Vec<(&str, Json)>) -> Json {
    Json::Object(entries.into_iter().map(|(k, v)| (k.to_string(), v)).collect())
}

#[test]
fn object_fields_and_defaults() {
    let v = obj(vec![
        ("mopUpTimes", num(3)),
        ("big", Json::Number { as_i64: None, as_u64: Some(u64::MAX) }),
        ("flag", Json::Bool(true)),
        ("name", Json::Str("tower".to_string())),
        ("type", Json::Str("12".to_string())),
        ("wide", num(1 << 40)),
        ("ids", Json::Array(vec![num(1), Json::Null, num(-2), Json::Str("3".to_string())])),
    ]);
    assert_eq!(v.int_or("mopUpTimes", 0), 3);
    assert_eq!(v.int_or("missing", 7), 7);
    assert_eq!(v.int_or("big", 0), 0);
    assert_eq!(v.get("big").unwrap().as_u64(), Some(u64::MAX));
    assert_eq!(v.int_or("flag", 0), 0);
    assert!(v.bool_or("flag", false));
    assert!(!v.bool_or("name", false));
    assert_eq!(v.str_or_empty("name"), "tower");
    assert_eq!(v.str_or_empty("flag"), "");
    assert_eq!(v.str_i32_or_zero("type"), 12);
    assert_eq!(v.str_i32_or_zero("name"), 0);
    assert_eq!(v.i32_or_zero("wide"), 0);
    assert_eq!(v.int_fields(&["mopUpTimes", "nope", "wide"]), vec![3, 0, 1 << 40]);
    let ids = v.array_at("ids").unwrap();
    assert_eq!(ints_of(ids), vec![1, -2]);
    assert_eq!(indexed_ints_of(ids), vec![(0, 1), (2, -2)]);
    assert!(v.array_at("name").is_none());
    assert!(num(1).get("x").is_none());
}

#[test]
fn first_key_wins() {
    let v = obj(vec![("k", num(1)), ("k", num(2))]);
    assert_eq!(v.int_or("k", 0), 1);
}

#[test]
fn datetimes_in_utc() {
    assert_eq!(parse_datetime_to_unix_sec("2023-11-14 22:13:20"), 1_700_000_000);
    assert_eq!(parse_datetime_to_unix_sec("1970-01-01 00:00:00"), 0);
    assert_eq!(parse_datetime_to_unix_sec("2023-11-14T22:13:20"), 0);
    assert_eq!(parse_datetime_to_unix_sec(""), 0);
}

fn field(name: &str, ty: &str, optional: bool) -> IndexField {
    IndexField { field: name.to_string(), key_type: ty.to_string(), optional }
}

#[test]
fn store_without_indexes() {
    let src = emit_table_store(&TableLayout { struct_name: "Plain".to_string(), id: None, group: None });
    let lines: Vec<&str> = src.lines().collect();
    assert_eq!(lines[0], "pub struct PlainTable {");
    assert_eq!(lines[1], "    records: Vec<Plain>,");
    assert!(!src.contains("HashMap"));
    assert!(src.ends_with("    pub fn is_empty(&self) -> bool { self.records.is_empty() }\n}"));
    assert!(!src.contains("pub fn get("));
}

#[test]
fn store_with_id_and_group() {
    let src = emit_table_store(&TableLayout {
        struct_name: "Activity191Role".to_string(),
        id: Some(field("id", "i32", false)),
        group: Some(field("activity_id", "String", true)),
    });
    assert!(src.starts_with("use std::collections::HashMap;\n\npub struct Activity191RoleTable {\n    records: Vec<Activity191Role>,\n    by_id: HashMap<i32, usize>,\n    by_group: HashMap<String, Vec<usize>>,\n}"));
    assert!(src.contains("\n            by_id.insert(record.id, idx);\n"));
    assert!(src.contains("\n            if let Some(group_id) = &record.activity_id {\n                by_group.entry(group_id.clone()).or_default().push(idx);\n            }\n"));
    assert!(src.contains("    pub fn get(&self, id: i32) -> Option<&Activity191Role> {"));
    assert!(src.contains("    pub fn by_group(&self, group_id: String) -> impl Iterator<Item = &'_ Activity191Role> + '_ {"));
    assert!(src.contains("            by_id,\n            by_group,\n        })"));
}

#[test]
fn store_with_optional_string_id() {
    let src = emit_table_store(&TableLayout {
        struct_name: "Item".to_string(),
        id: Some(field("key", "String", true)),
        group: None,
    });
    assert!(src.contains("            if let Some(id) = &record.key {\n                by_id.insert(id.clone(), idx);\n            }"));
    assert!(!src.contains("by_group"));
}

#[test]
fn store_marked_lines_stand_once() {
    for (id, group) in [(false, false), (true, false), (false, true), (true, true)] {
        let src = emit_table_store(&TableLayout {
            struct_name: "Row".to_string(),
            id: if id { Some(field("id", "i32", false)) } else { None },
            group: if group { Some(field("group_id", "i32", false)) } else { None },
        });
        let count = |line: &str| src.lines().filter(|l| *l == line).count();
        assert_eq!(count("use std::collections::HashMap;"), (id || group) as usize);
        assert_eq!(count("    by_id: HashMap<i32, usize>,"), id as usize);
        assert_eq!(count("    pub fn get(&self, id: i32) -> Option<&Row> {"), id as usize);
        assert_eq!(
            count("    pub fn by_group(&self, group_id: i32) -> impl Iterator<Item = &'_ Row> + '_ {"),
            group as usize
        );
        assert_eq!(count("    pub fn all(&self) -> &[Row] {"), 1);
        assert_eq!(count("    pub fn iter(&self) -> std::slice::Iter<'_, Row> {"), 1);
        assert_eq!(count("    pub fn len(&self) -> usize { self.records.len() }"), 1);
        assert_eq!(count("    pub fn is_empty(&self) -> bool { self.records.is_empty() }"), 1);
    }
}
