//! GM chat commands: a message that starts with `/` is a command. This
//! module reads the command, checks its arguments against the data tables,
//! and words the replies; carrying out a grant is left to the caller.
use vstd::prelude::*;
use crate::text::{
    chars_eq_str, chars_of, int_string, int_text, parse_i32, parse_u32, push_chars, push_str,
    spec_parse_i32, spec_parse_u32, split_whitespace_chars, trim, trim_chars, views, words,
};

verus! {

/// What a GM command comes to.
#[derive(Debug, Clone, PartialEq, Eq)]
pub enum GmAction {
    /// Answer with this text and change nothing.
    Reply(String),
    AddItem { item_id: u32, amount: i32 },
    AddCurrency { currency_id: i32, amount: i32 },
    SetLevel { level: i32 },
    /// Grant the hero unless the player has it already.
    AddHero { hero_id: i32 },
    AddEquip { equip_id: i32, amount: i32 },
}

/// The lowest and highest level a GM may set.
pub const GM_MIN_LEVEL: i32 = 1;
pub const GM_MAX_LEVEL: i32 = 80;

/// The words of a command: `None` where the trimmed message does not start
/// with `/` (the message is no command at all).
pub open spec fn spec_command_words(input: Seq<char>) -> Option<Seq<Seq<char>>> {
    let t = trim(input);
    if t.len() > 0 && t[0] == '/' {
        Some(words(t))
    } else {
        None
    }
}

/// Splits a chat message into the words of a command.
pub fn command_words(input: &str) -> (r: Option<Vec<Vec<char>>>)
    ensures
        match r {
            Some(w) => spec_command_words(input@) == Some(views(w@)),
            None => spec_command_words(input@) is None,
        },
{
    let cs = chars_of(input);
    let t = trim_chars(cs.as_slice());
    if t.len() == 0 || t[0] != '/' {
        return None;
    }
    Some(split_whitespace_chars(t.as_slice()))
}

pub open spec fn help_text() -> Seq<char> {
    "Available GM Commands:\n/help - Show this help\n/item <id> <amount> - Add items\n/currency <id> <amount> - Add currency\n/level <level> - Set player level\n/hero <id> - Add hero\n/equip <id> <amount> - Add equipment"@
}

/// The list of commands (`/help`).
pub fn get_help() -> (s: String)
    ensures
        s@ == help_text(),
{
    "Available GM Commands:\n/help - Show this help\n/item <id> <amount> - Add items\n/currency <id> <amount> - Add currency\n/level <level> - Set player level\n/hero <id> - Add hero\n/equip <id> <amount> - Add equipment".to_owned()
}

pub open spec fn replies(a: GmAction, text: Seq<char>) -> bool {
    a matches GmAction::Reply(s) && s@ == text
}

pub open spec fn item_action(a: GmAction, args: Seq<Seq<char>>, item_ids: Seq<i32>) -> bool {
    if args.len() < 2 {
        replies(a, "Usage: /item <id> <amount>"@)
    } else {
        match spec_parse_u32(args[0]) {
            None => replies(a, "Invalid item ID: "@ + args[0]),
            Some(id) => match spec_parse_i32(args[1]) {
                None => replies(a, "Invalid amount: "@ + args[1]),
                Some(n) => if item_ids.contains(id as i32) {
                    a == GmAction::AddItem { item_id: id, amount: n }
                } else {
                    replies(a, "Invalid item ID: "@ + int_text(id as int))
                },
            },
        }
    }
}

pub open spec fn currency_action(a: GmAction, args: Seq<Seq<char>>) -> bool {
    if args.len() < 2 {
        replies(a, "Usage: /currency <id> <amount>"@)
    } else {
        match spec_parse_i32(args[0]) {
            None => replies(a, "Invalid currency ID: "@ + args[0]),
            Some(id) => match spec_parse_i32(args[1]) {
                None => replies(a, "Invalid amount: "@ + args[1]),
                Some(n) => a == GmAction::AddCurrency { currency_id: id, amount: n },
            },
        }
    }
}

pub open spec fn level_action(a: GmAction, args: Seq<Seq<char>>) -> bool {
    if args.len() == 0 {
        replies(a, "Usage: /level <level>"@)
    } else {
        match spec_parse_i32(args[0]) {
            None => replies(a, "Invalid level: "@ + args[0]),
            Some(l) => if l < GM_MIN_LEVEL || l > GM_MAX_LEVEL {
                replies(a, "Level must be between 1 and 80"@)
            } else {
                a == GmAction::SetLevel { level: l }
            },
        }
    }
}

pub open spec fn hero_action(a: GmAction, args: Seq<Seq<char>>, hero_ids: Seq<i32>) -> bool {
    if args.len() == 0 {
        replies(a, "Usage: /hero <id>"@)
    } else {
        match spec_parse_i32(args[0]) {
            None => replies(a, "Invalid hero ID: "@ + args[0]),
            Some(id) => if hero_ids.contains(id) {
                a == GmAction::AddHero { hero_id: id }
            } else {
                replies(a, "Invalid hero ID: "@ + int_text(id as int))
            },
        }
    }
}

pub open spec fn equip_action(a: GmAction, args: Seq<Seq<char>>, equip_ids: Seq<i32>) -> bool {
    if args.len() < 2 {
        replies(a, "Usage: /equip <id> <amount>"@)
    } else {
        match spec_parse_i32(args[0]) {
            None => replies(a, "Invalid equipment ID: "@ + args[0]),
            Some(id) => match spec_parse_i32(args[1]) {
                None => replies(a, "Invalid amount: "@ + args[1]),
                Some(n) => if equip_ids.contains(id) {
                    a == GmAction::AddEquip { equip_id: id, amount: n }
                } else {
                    replies(a, "Invalid equipment ID: "@ + int_text(id as int))
                },
            },
        }
    }
}

/// What the command `words` comes to, given the ids of the item, character
/// and equipment tables.
pub open spec fn spec_gm_action(
    a: GmAction,
    words: Seq<Seq<char>>,
    item_ids: Seq<i32>,
    hero_ids: Seq<i32>,
    equip_ids: Seq<i32>,
) -> bool {
    if words.len() == 0 {
        replies(a, "Invalid command"@)
    } else {
        let cmd = words[0];
        let args = words.drop_first();
        if cmd == "/help"@ {
            replies(a, help_text())
        } else if cmd == "/item"@ {
            item_action(a, args, item_ids)
        } else if cmd == "/currency"@ {
            currency_action(a, args)
        } else if cmd == "/level"@ {
            level_action(a, args)
        } else if cmd == "/hero"@ {
            hero_action(a, args, hero_ids)
        } else if cmd == "/equip"@ {
            equip_action(a, args, equip_ids)
        } else {
            replies(a, "Unknown command: "@ + cmd)
        }
    }
}

/// `prefix` followed by the characters of `arg`.
fn with_text(prefix: &str, arg: &[char]) -> (s: String)
    ensures
        s@ == prefix@ + arg@,
{
    let mut s = prefix.to_owned();
    push_chars(&mut s, arg);
    s
}

/// `prefix` followed by a number in decimal.
fn with_number(prefix: &str, n: i64) -> (s: String)
    ensures
        s@ == prefix@ + int_text(n as int),
{
    let mut s = prefix.to_owned();
    let d = int_string(n);
    push_str(&mut s, d.as_str());
    s
}

fn contains_id(ids: &Vec<i32>, x: i32) -> (r: bool)
    ensures
        r == ids@.contains(x),
{
    let mut i: usize = 0;
    while i < ids.len()
        invariant
            i <= ids@.len(),
            forall|j: int| 0 <= j < i ==> ids@[j] != x,
        decreases ids@.len() - i,
    {
        if ids[i] == x {
            assert(ids@[i as int] == x);
            return true;
        }
        i = i + 1;
    }
    false
}

fn plan_item(args: &[Vec<char>], item_ids: &Vec<i32>) -> (a: GmAction)
    ensures
        item_action(a, views(args@), item_ids@),
{
    if args.len() < 2 {
        return GmAction::Reply("Usage: /item <id> <amount>".to_owned());
    }
    let id = match parse_u32(args[0].as_slice()) {
        Some(id) => id,
        None => return GmAction::Reply(with_text("Invalid item ID: ", args[0].as_slice())),
    };
    let n = match parse_i32(args[1].as_slice()) {
        Some(n) => n,
        None => return GmAction::Reply(with_text("Invalid amount: ", args[1].as_slice())),
    };
    #[verifier::truncate]
    let key = id as i32;
    if contains_id(item_ids, key) {
        GmAction::AddItem { item_id: id, amount: n }
    } else {
        GmAction::Reply(with_number("Invalid item ID: ", id as i64))
    }
}

fn plan_currency(args: &[Vec<char>]) -> (a: GmAction)
    ensures
        currency_action(a, views(args@)),
{
    if args.len() < 2 {
        return GmAction::Reply("Usage: /currency <id> <amount>".to_owned());
    }
    let id = match parse_i32(args[0].as_slice()) {
        Some(id) => id,
        None => return GmAction::Reply(with_text("Invalid currency ID: ", args[0].as_slice())),
    };
    match parse_i32(args[1].as_slice()) {
        Some(n) => GmAction::AddCurrency { currency_id: id, amount: n },
        None => GmAction::Reply(with_text("Invalid amount: ", args[1].as_slice())),
    }
}

fn plan_level(args: &[Vec<char>]) -> (a: GmAction)
    ensures
        level_action(a, views(args@)),
{
    if args.len() == 0 {
        return GmAction::Reply("Usage: /level <level>".to_owned());
    }
    match parse_i32(args[0].as_slice()) {
        Some(l) => if l < GM_MIN_LEVEL || l > GM_MAX_LEVEL {
            GmAction::Reply("Level must be between 1 and 80".to_owned())
        } else {
            GmAction::SetLevel { level: l }
        },
        None => GmAction::Reply(with_text("Invalid level: ", args[0].as_slice())),
    }
}

fn plan_hero(args: &[Vec<char>], hero_ids: &Vec<i32>) -> (a: GmAction)
    ensures
        hero_action(a, views(args@), hero_ids@),
{
    if args.len() == 0 {
        return GmAction::Reply("Usage: /hero <id>".to_owned());
    }
    match parse_i32(args[0].as_slice()) {
        Some(id) => if contains_id(hero_ids, id) {
            GmAction::AddHero { hero_id: id }
        } else {
            GmAction::Reply(with_number("Invalid hero ID: ", id as i64))
        },
        None => GmAction::Reply(with_text("Invalid hero ID: ", args[0].as_slice())),
    }
}

fn plan_equip(args: &[Vec<char>], equip_ids: &Vec<i32>) -> (a: GmAction)
    ensures
        equip_action(a, views(args@), equip_ids@),
{
    if args.len() < 2 {
        return GmAction::Reply("Usage: /equip <id> <amount>".to_owned());
    }
    let id = match parse_i32(args[0].as_slice()) {
        Some(id) => id,
        None => return GmAction::Reply(with_text("Invalid equipment ID: ", args[0].as_slice())),
    };
    let n = match parse_i32(args[1].as_slice()) {
        Some(n) => n,
        None => return GmAction::Reply(with_text("Invalid amount: ", args[1].as_slice())),
    };
    if contains_id(equip_ids, id) {
        GmAction::AddEquip { equip_id: id, amount: n }
    } else {
        GmAction::Reply(with_number("Invalid equipment ID: ", id as i64))
    }
}

/// What a command comes to, given the ids of the item, character and
/// equipment tables.
pub fn plan_command(
    words: &Vec<Vec<char>>,
    item_ids: &Vec<i32>,
    hero_ids: &Vec<i32>,
    equip_ids: &Vec<i32>,
) -> (a: GmAction)
    ensures
        spec_gm_action(a, views(words@), item_ids@, hero_ids@, equip_ids@),
{
    if words.len() == 0 {
        return GmAction::Reply("Invalid command".to_owned());
    }
    let cmd = words[0].as_slice();
    let args = words.as_slice().split_at(1).1;
    assert(views(args@) =~= views(words@).drop_first());
    if chars_eq_str(cmd, "/help") {
        GmAction::Reply(get_help())
    } else if chars_eq_str(cmd, "/item") {
        plan_item(args, item_ids)
    } else if chars_eq_str(cmd, "/currency") {
        plan_currency(args)
    } else if chars_eq_str(cmd, "/level") {
        plan_level(args)
    } else if chars_eq_str(cmd, "/hero") {
        plan_hero(args, hero_ids)
    } else if chars_eq_str(cmd, "/equip") {
        plan_equip(args, equip_ids)
    } else {
        GmAction::Reply(with_text("Unknown command: ", cmd))
    }
}

/// The reply once a grant has been carried out. For a hero, `had_hero`
/// says whether the player already had it (and nothing was granted).
pub open spec fn spec_done_message(a: GmAction, had_hero: bool) -> Seq<char> {
    match a {
        GmAction::Reply(s) => s@,
        GmAction::AddItem { item_id, amount } => "Added "@ + int_text(amount as int) + " of item "@
            + int_text(item_id as int),
        GmAction::AddCurrency { currency_id, amount } => "Added "@ + int_text(amount as int)
            + " of currency "@ + int_text(currency_id as int),
        GmAction::SetLevel { level } => "Set level to "@ + int_text(level as int),
        GmAction::AddHero { hero_id } => if had_hero {
            "You already have hero "@ + int_text(hero_id as int)
        } else {
            "Added hero "@ + int_text(hero_id as int)
        },
        GmAction::AddEquip { equip_id, amount } => "Added "@ + int_text(amount as int)
            + " of equipment "@ + int_text(equip_id as int),
    }
}

fn added_message(amount: i32, what: &str, id: i64) -> (s: String)
    ensures
        s@ == "Added "@ + int_text(amount as int) + what@ + int_text(id as int),
{
    let mut s = with_number("Added ", amount as i64);
    push_str(&mut s, what);
    let d = int_string(id);
    push_str(&mut s, d.as_str());
    s
}

pub fn done_message(a: &GmAction, had_hero: bool) -> (s: String)
    ensures
        s@ == spec_done_message(*a, had_hero),
{
    match a {
        GmAction::Reply(t) => t.clone(),
        GmAction::AddItem { item_id, amount } => added_message(*amount, " of item ", *item_id as i64),
        GmAction::AddCurrency { currency_id, amount } => added_message(
            *amount,
            " of currency ",
            *currency_id as i64,
        ),
        GmAction::SetLevel { level } => with_number("Set level to ", *level as i64),
        GmAction::AddHero { hero_id } => if had_hero {
            with_number("You already have hero ", *hero_id as i64)
        } else {
            with_number("Added hero ", *hero_id as i64)
        },
        GmAction::AddEquip { equip_id, amount } => added_message(
            *amount,
            " of equipment ",
            *equip_id as i64,
        ),
    }
}

/// A chat message gets an answer from the bot only where it starts with
/// `/` as sent (before any trimming).
pub open spec fn spec_is_command(input: Seq<char>) -> bool {
    input.len() > 0 && input[0] == '/'
}

pub fn is_command(input: &str) -> (r: bool)
    ensures
        r == spec_is_command(input@),
{
    let cs = chars_of(input);
    cs.len() > 0 && cs[0] == '/'
}

/// The answer the bot gives for a command that failed with the given error
/// name.
pub fn error_reply(error_name: &str) -> (s: String)
    ensures
        s@ == "Error: "@ + error_name@,
{
    let mut s = "Error: ".to_owned();
    push_str(&mut s, error_name);
    s
}

} // verus!
