//! Game-server logic for a Reverse: 1999 private server: server time and
//! daily/weekly/monthly resets, sign-in and login rewards, inventories,
//! hero creation and talents, dungeon records, GM chat commands, account
//! handling, configuration and the generated data tables.
pub mod text;
pub mod time;
pub mod models;
pub mod select;
pub mod game_config;
pub mod hero_tables;
pub mod hero;
pub mod hero_rules;
pub mod sign_in;
pub mod dungeon;
pub mod config;
pub mod exceldb;
pub mod inventory;
pub mod gm;
pub mod account;
pub mod codegen;
pub mod json;
pub mod hero_group;
pub mod starter;
pub mod summon;
pub mod room;
pub mod asset;
pub mod starter_rows;
