use sonetto::config::{data_directory, dns, excel_data_directory, game_port, host, http_port, DatabaseConfig, PathConfig, ServerConfig, ServerSettings};
use sonetto::exceldb::{Activity191Role, Activity191RoleTable, GameDB};
use sonetto::game_config::{BgmSwitch, CurrencyConfig, Episode, Equip, GuideConfig, InsightItemConfig, ItemConfig, PowerItemConfig, SummonPool};
use sonetto::starter::{
    starter_bgms, starter_currencies, starter_dungeons, starter_equipment, starter_guides, starter_insight_items, starter_items,
    starter_power_items, welcome_mail_incr_id, DEFAULT_BGM_ID,
};
use sonetto::summon::{counted_pools, default_summon_stats};

fn cfg() -> ServerConfig {
    ServerConfig {
        server: ServerSettings { host: "0.0.0.0".to_string(), dns: "127.0.0.1".to_string(), http_port: 21000, game_port: 23301 },
        paths: PathConfig { data_dir: "data".to_string(), excel_data: "data/excel2json".to_string(), static_data: "/srv/static".to_string() },
        database: DatabaseConfig { path: "db/sonetto.db".to_string() },
    }
}

#[test]
fn config_accessors() {
    let c = cfg();
    assert_eq!(host(&c), "0.0.0.0");
    assert_eq!(dns(&c), "127.0.0.1");
    assert_eq!(http_port(&c), 21000);
    assert_eq!(game_port(&c), 23301);
    assert_eq!(data_directory(&c), "/srv/static");
    assert_eq!(excel_data_directory(&c), "data/excel2json");
}

#[test]
fn relative_paths_move_under_the_config_dir() {
    let mut c = cfg();
    c.resolve_paths("/etc/sonetto");
    let base = std::path::Path::new("/etc/sonetto");
    assert_eq!(c.paths.data_dir, base.join("data").to_string_lossy());
    assert_eq!(c.paths.excel_data, base.join("data/excel2json").to_string_lossy());
    assert_eq!(c.database.path, base.join("db/sonetto.db").to_string_lossy());
    assert!(c.paths.data_dir == "/etc/sonetto/data" || c.paths.data_dir == "/etc/sonetto\\data");
    assert_eq!(c.paths.static_data, "/srv/static");
    assert_eq!(c.server.host, "0.0.0.0");
    assert_eq!(c.server.game_port, 23301);
}

#[test]
fn relative_paths_move_under_a_drive_letter_dir() {
    let mut c = cfg();
    c.resolve_paths("C:\\srv");
    assert!(c.paths.data_dir == "C:\\srv/data" || c.paths.data_dir == "C:\\srv\\data");
    assert_eq!(c.paths.data_dir, std::path::Path::new("C:\\srv").join("data").to_string_lossy());
    assert_eq!(c.paths.static_data, std::path::Path::new("C:\\srv").join("/srv/static").to_string_lossy());
}

fn role(id: i32, name: &str) -> Activity191Role {
    Activity191Role {
        active_skill1: String::new(),
        active_skill2: String::new(),
        activity_id: 191,
        career: 1,
        dmg_type: 1,
        ex_level: 0,
        facets_id: String::new(),
        gender: 1,
        id,
        name: name.to_string(),
        passive_skill: String::new(),
        power_max: String::new(),
        quality: 5,
        role_id: id,
        skin_id: 0,
        star: 1,
        tag: String::new(),
        template: 0,
        role_type: String::new(),
        unique_skill: 0,
        unique_skill_point: String::new(),
        weight: 1,
    }
}

#[test]
fn table_lookup_finds_the_last_row_of_an_id() {
    let t = Activity191RoleTable::load(vec![role(1, "a"), role(2, "b"), role(1, "c")]);
    assert_eq!(t.len(), 3);
    assert!(!t.is_empty());
    assert_eq!(t.get(1).unwrap().name, "c");
    assert_eq!(t.get(2).unwrap().name, "b");
    assert!(t.get(3).is_none());
    let names: Vec<&str> = t.iter().map(|r| r.name.as_str()).collect();
    assert_eq!(names, vec!["a", "b", "c"]);
    assert_eq!(t.all().len(), 3);
    let empty = Activity191RoleTable::load(vec![]);
    assert!(empty.is_empty());
    assert!(empty.get(1).is_none());
    assert!(GameDB::load("data").is_ok());
}

#[test]
fn starter_equipment_and_its_index() {
    let t = vec![
        Equip { id: 1000, rare: 5, name_en: "a".to_string() },
        Equip { id: 1001, rare: 1, name_en: "b".to_string() },
        Equip { id: 1000, rare: 2, name_en: "c".to_string() },
        Equip { id: 1002, rare: 4, name_en: "Gluttony".to_string() },
    ];
    let s = starter_equipment(&t, 30000000);
    let got: Vec<(i64, i32, bool)> = s.pieces.iter().map(|p| (p.uid, p.equip_id, p.is_lock)).collect();
    assert_eq!(got, vec![(30000000, 1000, true), (30000001, 1000, false), (30000002, 1002, false)]);
    assert_eq!(s.first_uid_of.get(&1000), Some(&30000000));
    assert_eq!(s.first_uid_of.get(&1002), Some(&30000002));
    assert_eq!(s.first_uid_of.get(&1001), None);
}

fn item(id: i32, sub_type: i32, show: i32, stack: i32, expire: &str) -> ItemConfig {
    ItemConfig { id, sub_type, is_show: show, is_stackable: stack, expire_time: expire.to_string() }
}

#[test]
fn starter_items_by_kind() {
    let t = vec![
        item(1, 0, 1, 1, ""),
        item(2, 48, 1, 1, ""),
        item(3, 13, 1, 1, ""),
        item(481002, 50, 1, 1, ""),
        item(5, 50, 1, 1, ""),
        item(6, 0, 1, 0, ""),
        item(7, 0, 0, 1, ""),
        item(8, 0, 1, 1, "2030-01-01"),
        item(9, 70, 1, 1, ""),
    ];
    assert_eq!(starter_items(&t), vec![(1, 100), (2, 10), (3, 0), (481002, 5), (5, 1), (9, 0), (6, 1)]);
    let power = vec![
        PowerItemConfig { id: 10, expire_type: 1, rare: 2 },
        PowerItemConfig { id: 11, expire_type: 1, rare: 3 },
        PowerItemConfig { id: 12, expire_type: 0, rare: 5 },
    ];
    assert_eq!(starter_power_items(&power), vec![11, 12]);
    let insight = vec![
        InsightItemConfig { id: 20, expire_hours: 1, rare: 4 },
        InsightItemConfig { id: 21, expire_hours: 1, rare: 3 },
    ];
    assert_eq!(starter_insight_items(&insight, 1_000_000), vec![(20, (1_000_000 + 3_600_000) / 1000)]);
}

#[test]
fn starter_currencies_and_guides() {
    let c = vec![
        CurrencyConfig { id: 1, max_limit: 0 },
        CurrencyConfig { id: 2, max_limit: 99 },
        CurrencyConfig { id: 4, max_limit: 240 },
    ];
    assert_eq!(starter_currencies(&c), vec![(1, 100), (2, 3_000_000), (4, 240)]);
    let g = vec![GuideConfig { id: 100, is_online: 1 }, GuideConfig { id: 101, is_online: 0 }];
    assert_eq!(starter_guides(&g), vec![100]);
}

#[test]
fn summons_count_toward_their_pools() {
    let t = vec![
        SummonPool { id: 1, pool_type: 1 },
        SummonPool { id: 2, pool_type: 3 },
        SummonPool { id: 3, pool_type: 3 },
    ];
    assert_eq!(counted_pools(&t, 1), Some((false, vec![1])));
    assert_eq!(counted_pools(&t, 3), Some((true, vec![2, 3])));
    assert_eq!(counted_pools(&t, 4), None);
    let s = default_summon_stats(8);
    assert_eq!((s.user_id, s.new_summon_count, s.total_summon_count), (8, 0, 0));
}

#[test]
fn starter_dungeons_music_and_mail() {
    let episodes = vec![
        Episode { id: 10101, chapter_id: 101, battle_id: 10101 },
        Episode { id: 10102, chapter_id: 101, battle_id: 0 },
    ];
    assert_eq!(starter_dungeons(&episodes), vec![(101, 10101, 2), (101, 10102, 1)]);
    let bgms = vec![BgmSwitch { id: 2201 }, BgmSwitch { id: DEFAULT_BGM_ID }];
    assert_eq!(starter_bgms(&bgms), vec![(2201, false), (2204, true)]);
    assert_eq!(welcome_mail_incr_id(7), 80_007_000);
    assert_eq!(welcome_mail_incr_id(-80_000), 0);
}
