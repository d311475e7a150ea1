use sonetto::gm::{command_words, done_message, error_reply, get_help, is_command, plan_command, GmAction};

fn plan(input: &str) -> Option<GmAction> {
    let words = command_words(input)?;
    let items = vec![140001, 481002];
    let heroes = vec![3001, 3123];
    let equips = vec![1000, 1527];
    Some(plan_command(&words, &items, &heroes, &equips))
}

fn reply(text: &str) -> Option<GmAction> {
    Some(GmAction::Reply(text.to_string()))
}

#[test]
fn readme_examples() {
    assert_eq!(plan("/currency 1 1000"), Some(GmAction::AddCurrency { currency_id: 1, amount: 1000 }));
    assert_eq!(plan("/item 140001 1000"), Some(GmAction::AddItem { item_id: 140001, amount: 1000 }));
    assert_eq!(plan("/equip 1000 1"), Some(GmAction::AddEquip { equip_id: 1000, amount: 1 }));
}

#[test]
fn messages_after_granting() {
    assert_eq!(done_message(&GmAction::AddCurrency { currency_id: 1, amount: 1000 }, false), "Added 1000 of currency 1");
    assert_eq!(done_message(&GmAction::AddItem { item_id: 140001, amount: 1000 }, false), "Added 1000 of item 140001");
    assert_eq!(done_message(&GmAction::AddEquip { equip_id: 1000, amount: 1 }, false), "Added 1 of equipment 1000");
    assert_eq!(done_message(&GmAction::SetLevel { level: 60 }, false), "Set level to 60");
    assert_eq!(done_message(&GmAction::AddHero { hero_id: 3001 }, false), "Added hero 3001");
    assert_eq!(done_message(&GmAction::AddHero { hero_id: 3001 }, true), "You already have hero 3001");
    assert_eq!(done_message(&GmAction::Reply("x".to_string()), true), "x");
}

#[test]
fn not_a_command() {
    assert_eq!(plan("hello"), None);
    assert_eq!(plan(""), None);
    assert_eq!(plan("   "), None);
    assert!(plan("   /help").is_some());
    assert!(!is_command("   /help"));
    assert!(is_command("/help"));
    assert!(!is_command("help /"));
}

#[test]
fn help_text() {
    let help = get_help();
    assert!(help.starts_with("Available GM Commands:\n/help - Show this help"));
    assert!(help.ends_with("/equip <id> <amount> - Add equipment"));
    assert_eq!(plan("/help extra"), Some(GmAction::Reply(help)));
}

#[test]
fn usage_and_bad_arguments() {
    assert_eq!(plan("/item 1"), reply("Usage: /item <id> <amount>"));
    assert_eq!(plan("/item x 1"), reply("Invalid item ID: x"));
    assert_eq!(plan("/item -5 1"), reply("Invalid item ID: -5"));
    assert_eq!(plan("/item 140001 lots"), reply("Invalid amount: lots"));
    assert_eq!(plan("/item 7 1"), reply("Invalid item ID: 7"));
    assert_eq!(plan("/currency 1"), reply("Usage: /currency <id> <amount>"));
    assert_eq!(plan("/currency a 1"), reply("Invalid currency ID: a"));
    assert_eq!(plan("/currency 1 b"), reply("Invalid amount: b"));
    assert_eq!(plan("/level"), reply("Usage: /level <level>"));
    assert_eq!(plan("/level high"), reply("Invalid level: high"));
    assert_eq!(plan("/level 0"), reply("Level must be between 1 and 80"));
    assert_eq!(plan("/level 81"), reply("Level must be between 1 and 80"));
    assert_eq!(plan("/level 80"), Some(GmAction::SetLevel { level: 80 }));
    assert_eq!(plan("/level 1"), Some(GmAction::SetLevel { level: 1 }));
    assert_eq!(plan("/hero"), reply("Usage: /hero <id>"));
    assert_eq!(plan("/hero abc"), reply("Invalid hero ID: abc"));
    assert_eq!(plan("/hero 9"), reply("Invalid hero ID: 9"));
    assert_eq!(plan("/hero 3123"), Some(GmAction::AddHero { hero_id: 3123 }));
    assert_eq!(plan("/equip 1000"), reply("Usage: /equip <id> <amount>"));
    assert_eq!(plan("/equip e 1"), reply("Invalid equipment ID: e"));
    assert_eq!(plan("/equip 1000 e"), reply("Invalid amount: e"));
    assert_eq!(plan("/equip 5 1"), reply("Invalid equipment ID: 5"));
    assert_eq!(plan("/fly 1"), reply("Unknown command: /fly"));
    assert_eq!(plan("/"), reply("Unknown command: /"));
}

#[test]
fn item_ids_wrap_like_a_cast() {
    // 4294967295 parses as u32 and is looked up as -1.
    let words = command_words("/item 4294967295 2").unwrap();
    let a = plan_command(&words, &vec![-1], &vec![], &vec![]);
    assert_eq!(a, GmAction::AddItem { item_id: u32::MAX, amount: 2 });
}

#[test]
fn error_reply_text() {
    assert_eq!(error_reply("NotLoggedIn"), "Error: NotLoggedIn");
}
