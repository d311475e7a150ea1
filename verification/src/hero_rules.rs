//! Rules applied to a hero the player owns: head-pat touches, the EX skill
//! cap, the Insight II skin, talent styles and talent schemes, and the
//! counters of heroes by rarity.
use vstd::prelude::*;
use crate::game_config::{Skin, TalentScheme, TalentStyleCost};
use crate::hero_tables::{parse_scheme_cubes, scheme_column, scheme_cubes, scheme_sel};
use crate::select::{first_index, idx, select_first};
use crate::text::{
    chars_eq_str, chars_of, int_string, int_text, parse_i32, parse_u32, push_str, spec_parse_i32,
    spec_parse_u32, split_chars, split_on, views,
};

verus! {

// ---------------------------------------------------------------------------
// Touches
// ---------------------------------------------------------------------------

/// The touches a player has each day.
pub const DAILY_TOUCHES: i32 = 5;

pub open spec fn spec_use_touch(current: Option<i32>) -> Option<i32> {
    let c = match current {
        Some(c) => c,
        None => DAILY_TOUCHES,
    };
    if c <= 0 {
        None
    } else {
        Some((c - 1) as i32)
    }
}

/// Spends one touch: the count left afterwards, or `None` where none is
/// left. A player with no stored count has the daily five.
pub fn use_touch(current: Option<i32>) -> (r: Option<i32>)
    ensures
        r == spec_use_touch(current),
{
    let c = match current {
        Some(c) => c,
        None => DAILY_TOUCHES,
    };
    if c <= 0 {
        None
    } else {
        Some(c - 1)
    }
}

/// Touching never leaves a negative count, and each touch takes exactly one.
pub proof fn lemma_touch_decreases(current: Option<i32>)
    ensures
        spec_use_touch(current) matches Some(n) ==> 0 <= n && n + 1 == (match current {
            Some(c) => c,
            None => DAILY_TOUCHES,
        }),
        spec_use_touch(current) is None ==> (current matches Some(c) && c <= 0),
{
}

/// After a reset a player can touch exactly five times in a day: the five
/// touches leave 4, 3, 2, 1 and 0, and the sixth is refused.
pub proof fn lemma_five_touches_a_day()
    ensures
        spec_use_touch(Some(DAILY_TOUCHES)) == Some(4i32),
        spec_use_touch(Some(4i32)) == Some(3i32),
        spec_use_touch(Some(3i32)) == Some(2i32),
        spec_use_touch(Some(2i32)) == Some(1i32),
        spec_use_touch(Some(1i32)) == Some(0i32),
        spec_use_touch(Some(0i32)) is None,
        spec_use_touch(None) == spec_use_touch(Some(DAILY_TOUCHES)),
{
}

// ---------------------------------------------------------------------------
// EX skill
// ---------------------------------------------------------------------------

/// The highest EX skill level.
pub const MAX_EX_SKILL_LEVEL: i32 = 5;

/// The EX skill level after raising it by `levels`, capped at 5.
pub fn upgraded_ex_skill_level(current: i32, levels: i32) -> (r: i32)
    requires
        i32::MIN <= current + levels <= i32::MAX,
    ensures
        r == (if current + levels < MAX_EX_SKILL_LEVEL {
            current + levels
        } else {
            MAX_EX_SKILL_LEVEL as int
        }),
{
    let v = current + levels;
    if v < MAX_EX_SKILL_LEVEL {
        v
    } else {
        MAX_EX_SKILL_LEVEL
    }
}

// ---------------------------------------------------------------------------
// Rarity counters
// ---------------------------------------------------------------------------

pub open spec fn spec_rarity_column(rarity: i32) -> Option<Seq<char>> {
    if rarity == 1 {
        Some("hero_rare_nn_count"@)
    } else if rarity == 2 {
        Some("hero_rare_n_count"@)
    } else if rarity == 3 {
        Some("hero_rare_r_count"@)
    } else if rarity == 4 {
        Some("hero_rare_sr_count"@)
    } else if rarity == 5 {
        Some("hero_rare_ssr_count"@)
    } else {
        None
    }
}

/// The player-info counter that a new hero of this rarity raises; `None`
/// for a rarity outside 1 to 5, which counts nowhere.
pub fn rarity_column(rarity: i32) -> (r: Option<&'static str>)
    ensures
        match r {
            Some(s) => spec_rarity_column(rarity) == Some(s@),
            None => spec_rarity_column(rarity) is None,
        },
{
    if rarity == 1 {
        Some("hero_rare_nn_count")
    } else if rarity == 2 {
        Some("hero_rare_n_count")
    } else if rarity == 3 {
        Some("hero_rare_r_count")
    } else if rarity == 4 {
        Some("hero_rare_sr_count")
    } else if rarity == 5 {
        Some("hero_rare_ssr_count")
    } else {
        None
    }
}

// ---------------------------------------------------------------------------
// Insight II skin
// ---------------------------------------------------------------------------

/// The Insight II skin of a hero: its id ends in `02` and it is gained by
/// insight.
pub open spec fn is_insight_skin(s: Skin, hero: i32) -> bool {
    s.character_id == hero && s.id >= 0 && s.id % 100 == 2 && s.gain_approach == 1
}

pub open spec fn insight_sel(t: Seq<Skin>, hero: i32) -> Seq<bool> {
    Seq::new(t.len(), |i: int| is_insight_skin(t[i], hero))
}

/// The skin that reaching `target_rank` unlocks: the hero's first Insight II
/// skin, from rank 3 on; `None` below rank 3 or where the hero has none.
pub open spec fn spec_insight_skin(t: Seq<Skin>, hero: i32, target_rank: i32) -> Option<i32> {
    if target_rank < 3 {
        None
    } else {
        match first_index(insight_sel(t, hero)) {
            Some(i) => Some(t[i].id),
            None => None,
        }
    }
}

pub fn insight_skin(t: &Vec<Skin>, hero: i32, target_rank: i32) -> (r: Option<i32>)
    ensures
        r == spec_insight_skin(t@, hero, target_rank),
{
    if target_rank < 3 {
        return None;
    }
    let mut sel: Vec<bool> = Vec::new();
    let mut i: usize = 0;
    while i < t.len()
        invariant
            i <= t@.len(),
            sel@.len() == i,
            forall|j: int| 0 <= j < i ==> sel@[j] == is_insight_skin(t@[j], hero),
        decreases t@.len() - i,
    {
        let s = t[i];
        sel.push(s.character_id == hero && s.id >= 0 && s.id % 100 == 2 && s.gain_approach == 1);
        i = i + 1;
    }
    assert(sel@ =~= insight_sel(t@, hero));
    match select_first(&sel) {
        Some(k) => Some(t[k].id),
        None => None,
    }
}

// ---------------------------------------------------------------------------
// Talent styles
// ---------------------------------------------------------------------------

/// Why unlocking a talent style failed.
#[derive(Debug, Clone, Copy, PartialEq, Eq)]
pub enum StyleError {
    /// The style has no cost row for this hero.
    CostNotFound,
    /// A cost entry holds an id or amount that is not a number.
    BadCost,
}

/// Items and currencies to pay: `(item id, amount)` and
/// `(currency id, amount)`.
pub type StyleCosts = (Vec<(u32, i32)>, Vec<(i32, i32)>);

/// One cost entry `kind#id#amount`: kind 1 is an item, kind 2 a currency,
/// other kinds and entries with fewer than three parts cost nothing.
/// `Err(())` where the id or amount of an item or currency does not parse.
pub open spec fn spec_cost_entry(entry: Seq<char>) -> Result<
    (Seq<(u32, i32)>, Seq<(i32, i32)>),
    (),
> {
    let p = split_on(entry, '#');
    if p.len() >= 3 && p[0] == "1"@ {
        match (spec_parse_u32(p[1]), spec_parse_i32(p[2])) {
            (Some(id), Some(n)) => Ok((seq![(id, n)], Seq::empty())),
            _ => Err(()),
        }
    } else if p.len() >= 3 && p[0] == "2"@ {
        match (spec_parse_i32(p[1]), spec_parse_i32(p[2])) {
            (Some(id), Some(n)) => Ok((Seq::empty(), seq![(id, n)])),
            _ => Err(()),
        }
    } else {
        Ok((Seq::empty(), Seq::empty()))
    }
}

/// The costs of a list of entries, in order; `Err(())` if any entry fails.
pub open spec fn spec_cost_entries(entries: Seq<Seq<char>>) -> Result<
    (Seq<(u32, i32)>, Seq<(i32, i32)>),
    (),
>
    decreases entries.len(),
{
    if entries.len() == 0 {
        Ok((Seq::empty(), Seq::empty()))
    } else {
        match (spec_cost_entries(entries.drop_last()), spec_cost_entry(entries.last())) {
            (Ok(a), Ok(b)) => Ok((a.0 + b.0, a.1 + b.1)),
            _ => Err(()),
        }
    }
}

/// The costs of a `|`-separated cost string.
pub open spec fn spec_style_costs(consume: Seq<char>) -> Result<
    (Seq<(u32, i32)>, Seq<(i32, i32)>),
    (),
> {
    spec_cost_entries(split_on(consume, '|'))
}

fn cost_entry(entry: &[char]) -> (r: Result<(Vec<(u32, i32)>, Vec<(i32, i32)>), ()>)
    ensures
        match (r, spec_cost_entry(entry@)) {
            (Ok(v), Ok(s)) => v.0@ == s.0 && v.1@ == s.1,
            (Err(_), Err(_)) => true,
            _ => false,
        },
{
    let p = split_chars(entry, '#');
    if p.len() < 3 {
        return Ok((Vec::new(), Vec::new()));
    }
    assert(p@[0]@ == split_on(entry@, '#')[0]);
    assert(p@[1]@ == split_on(entry@, '#')[1]);
    assert(p@[2]@ == split_on(entry@, '#')[2]);
    if chars_eq_str(p[0].as_slice(), "1") {
        match (parse_u32(p[1].as_slice()), parse_i32(p[2].as_slice())) {
            (Some(id), Some(n)) => {
                let items = vec![(id, n)];
                assert(items@ =~= seq![(id, n)]);
                Ok((items, Vec::new()))
            },
            _ => Err(()),
        }
    } else if chars_eq_str(p[0].as_slice(), "2") {
        match (parse_i32(p[1].as_slice()), parse_i32(p[2].as_slice())) {
            (Some(id), Some(n)) => {
                let cur = vec![(id, n)];
                assert(cur@ =~= seq![(id, n)]);
                Ok((Vec::new(), cur))
            },
            _ => Err(()),
        }
    } else {
        Ok((Vec::new(), Vec::new()))
    }
}

fn append_pairs_u(a: &mut Vec<(u32, i32)>, b: Vec<(u32, i32)>)
    ensures
        final(a)@ == old(a)@ + b@,
{
    let mut i: usize = 0;
    let ghost start = a@;
    while i < b.len()
        invariant
            i <= b@.len(),
            a@ == start + b@.take(i as int),
        decreases b@.len() - i,
    {
        a.push(b[i]);
        i = i + 1;
        assert(b@.take(i as int) =~= b@.take(i - 1).push(b@[i - 1]));
    }
    assert(b@.take(b@.len() as int) =~= b@);
}

fn append_pairs_i(a: &mut Vec<(i32, i32)>, b: Vec<(i32, i32)>)
    ensures
        final(a)@ == old(a)@ + b@,
{
    let mut i: usize = 0;
    let ghost start = a@;
    while i < b.len()
        invariant
            i <= b@.len(),
            a@ == start + b@.take(i as int),
        decreases b@.len() - i,
    {
        a.push(b[i]);
        i = i + 1;
        assert(b@.take(i as int) =~= b@.take(i - 1).push(b@[i - 1]));
    }
    assert(b@.take(b@.len() as int) =~= b@);
}

/// The items and currencies that a cost string asks for.
pub fn style_costs(consume: &str) -> (r: Result<StyleCosts, ()>)
    ensures
        match (r, spec_style_costs(consume@)) {
            (Ok(v), Ok(s)) => v.0@ == s.0 && v.1@ == s.1,
            (Err(_), Err(_)) => true,
            _ => false,
        },
{
    let cs = chars_of(consume);
    let entries = split_chars(cs.as_slice(), '|');
    let ghost e = split_on(consume@, '|');
    let mut items: Vec<(u32, i32)> = Vec::new();
    let mut currencies: Vec<(i32, i32)> = Vec::new();
    let mut i: usize = 0;
    while i < entries.len()
        invariant
            views(entries@) == e,
            e == split_on(consume@, '|'),
            i <= entries@.len(),
            spec_cost_entries(e.take(i as int)) matches Ok(s) && items@ == s.0 && currencies@
                == s.1,
        decreases entries@.len() - i,
    {
        proof {
            assert(e.take(i + 1).drop_last() =~= e.take(i as int));
            assert(e.take(i + 1).last() == entries@[i as int]@);
        }
        match cost_entry(entries[i].as_slice()) {
            Ok((a, b)) => {
                append_pairs_u(&mut items, a);
                append_pairs_i(&mut currencies, b);
            },
            Err(_) => {
                proof {
                    assert(spec_cost_entries(e.take(i + 1)) is Err);
                    lemma_cost_entries_err(e, i as int + 1);
                }
                return Err(());
            },
        }
        i = i + 1;
    }
    assert(e.take(entries@.len() as int) =~= e);
    Ok((items, currencies))
}

/// Once a prefix of the entries fails, the whole list fails.
proof fn lemma_cost_entries_err(e: Seq<Seq<char>>, k: int)
    requires
        0 <= k <= e.len(),
        spec_cost_entries(e.take(k)) is Err,
    ensures
        spec_cost_entries(e) is Err,
    decreases e.len() - k,
{
    if k < e.len() {
        assert(e.take(k + 1).drop_last() =~= e.take(k));
        lemma_cost_entries_err(e, k + 1);
    } else {
        assert(e.take(k) =~= e);
    }
}

pub open spec fn style_cost_sel(t: Seq<TalentStyleCost>, hero: i32, style: i32) -> Seq<bool> {
    Seq::new(t.len(), |i: int| t[i].hero_id == hero && t[i].style_id == style)
}

/// The talent-style bit mask with `style` added.
pub open spec fn spec_unlock_mask(current: i32, style: i32) -> i32 {
    current | (1i32 << (style as u32))
}

/// What unlocking a talent style costs and the hero's new mask of unlocked
/// styles; fails where the style has no cost row or its costs do not parse.
pub open spec fn spec_unlock_talent_style(
    t: Seq<TalentStyleCost>,
    hero: i32,
    style: i32,
    current: i32,
) -> Result<((Seq<(u32, i32)>, Seq<(i32, i32)>), i32), StyleError> {
    match first_index(style_cost_sel(t, hero, style)) {
        None => Err(StyleError::CostNotFound),
        Some(i) => match spec_style_costs(t[i].consume@) {
            Ok(c) => Ok((c, spec_unlock_mask(current, style))),
            Err(_) => Err(StyleError::BadCost),
        },
    }
}

/// Unlocks talent style `style` (0 to 31) of a hero whose mask of unlocked
/// styles is `current`: the costs to pay and the new mask.
pub fn unlock_talent_style(t: &Vec<TalentStyleCost>, hero: i32, style: i32, current: i32) -> (r:
    Result<(StyleCosts, i32), StyleError>)
    requires
        0 <= style < 32,
    ensures
        match (r, spec_unlock_talent_style(t@, hero, style, current)) {
            (Ok(v), Ok(s)) => v.0.0@ == s.0.0 && v.0.1@ == s.0.1 && v.1 == s.1,
            (Err(a), Err(b)) => a == b,
            _ => false,
        },
{
    let mut sel: Vec<bool> = Vec::new();
    let mut i: usize = 0;
    while i < t.len()
        invariant
            i <= t@.len(),
            sel@.len() == i,
            forall|j: int|
                0 <= j < i ==> sel@[j] == (t@[j].hero_id == hero && t@[j].style_id == style),
        decreases t@.len() - i,
    {
        sel.push(t[i].hero_id == hero && t[i].style_id == style);
        i = i + 1;
    }
    assert(sel@ =~= style_cost_sel(t@, hero, style));
    let k = match select_first(&sel) {
        Some(k) => k,
        None => return Err(StyleError::CostNotFound),
    };
    match style_costs(t[k].consume.as_str()) {
        Ok(c) => Ok((c, current | (1i32 << (style as u32)))),
        Err(_) => Err(StyleError::BadCost),
    }
}

/// Unlocking a style sets its bit and keeps every style unlocked before.
pub proof fn lemma_unlock_keeps_styles(current: i32, style: i32, other: i32)
    requires
        0 <= style < 32,
        0 <= other < 32,
    ensures
        spec_unlock_mask(current, style) & (1i32 << (style as u32)) != 0,
        current & (1i32 << (other as u32)) != 0 ==> spec_unlock_mask(current, style) & (1i32 << (
        other as u32)) != 0,
{
    let s = style as u32;
    let o = other as u32;
    assert(s < 32 ==> (current | (1i32 << s)) & (1i32 << s) != 0) by (bit_vector);
    assert(o < 32 && current & (1i32 << o) != 0 ==> (current | (1i32 << s)) & (1i32 << o) != 0)
        by (bit_vector);
}

// ---------------------------------------------------------------------------
// Talent schemes
// ---------------------------------------------------------------------------

/// The cubes of the first scheme of the given talent level and mould, or
/// `None` where no such scheme exists.
pub open spec fn spec_talent_scheme_cubes(t: Seq<TalentScheme>, talent: i32, mould: i32) -> Option<
    Seq<(i32, i32, i32, i32)>,
> {
    match first_index(scheme_sel(t, talent, mould)) {
        Some(j) => Some(scheme_cubes(t[j].talen_scheme@)),
        None => None,
    }
}

/// The cubes that loading a talent scheme places on a template.
pub fn talent_scheme_cubes(t: &Vec<TalentScheme>, talent: i32, mould: i32) -> (r: Option<
    Vec<(i32, i32, i32, i32)>,
>)
    ensures
        match (r, spec_talent_scheme_cubes(t@, talent, mould)) {
            (Some(v), Some(s)) => v@ == s,
            (None, None) => true,
            _ => false,
        },
{
    let sel = scheme_column(t, talent, mould);
    match select_first(&sel) {
        Some(j) => Some(parse_scheme_cubes(t[j].talen_scheme.as_str())),
        None => None,
    }
}

// ---------------------------------------------------------------------------
// Weapon choice of hero 3123
// ---------------------------------------------------------------------------

/// The weapons chosen for hero 3123, as its record keeps them:
/// `main#sub`.
pub open spec fn spec_weapon_choice(main_id: i32, sub_id: i32) -> Seq<char> {
    int_text(main_id as int) + "#"@ + int_text(sub_id as int)
}

pub fn weapon_choice(main_id: i32, sub_id: i32) -> (s: String)
    ensures
        s@ == spec_weapon_choice(main_id, sub_id),
{
    let mut s = int_string(main_id as i64);
    push_str(&mut s, "#");
    let t = int_string(sub_id as i64);
    push_str(&mut s, t.as_str());
    s
}

// ---------------------------------------------------------------------------
// Talent templates and showcased heroes
// ---------------------------------------------------------------------------

/// Changing the cubes of a talent template also changes the hero's active
/// board only where that template is the one in use.
pub fn edits_active_board(template_id: i32, active_template_id: i32) -> (r: bool)
    ensures
        r == (template_id == active_template_id),
{
    template_id == active_template_id
}

/// A talent style can be applied to a template where it is style 0 (no
/// style) or one the hero owns.
pub fn style_applicable(style: i32, owned: bool) -> (r: bool)
    ensures
        r == (style == 0 || owned),
{
    style == 0 || owned
}

/// What happens to one showcase slot of the player's profile.
#[derive(Debug, Clone, Copy, PartialEq, Eq)]
pub enum ShowSlot {
    /// Slot `order` is emptied (its uid was 0).
    Clear { order: i32 },
    /// Slot `order` shows the hero with this uid.
    Show { order: i32, hero_uid: i64 },
}

/// The slot updates for a list of showcased hero uids: slot `k` (numbered
/// as `as i32` numbers it) is emptied for uid 0 and shows the hero
/// otherwise.
pub open spec fn spec_show_slot(k: int, uid: i64) -> ShowSlot {
    if uid == 0 {
        ShowSlot::Clear { order: k as i32 }
    } else {
        ShowSlot::Show { order: k as i32, hero_uid: uid }
    }
}

/// The showcase slot that an update touches.
pub open spec fn slot_order(s: ShowSlot) -> int {
    match s {
        ShowSlot::Clear { order } => order as int,
        ShowSlot::Show { order, .. } => order as int,
    }
}

/// Each entry of the showcase list updates the slot at its own index,
/// emptied or shown alike: the update for uid `u` at index `k` touches slot
/// `k`, empties it exactly where `u` is 0 and otherwise shows hero `u`; so
/// two entries never touch the same slot.
pub proof fn lemma_show_slot_at_index(k: int, uid: i64, j: int, other: i64)
    requires
        0 <= k <= i32::MAX,
        0 <= j <= i32::MAX,
    ensures
        slot_order(spec_show_slot(k, uid)) == k,
        spec_show_slot(k, uid) is Clear <==> uid == 0,
        spec_show_slot(k, uid) matches ShowSlot::Show { hero_uid, .. } ==> hero_uid == uid,
        j != k ==> slot_order(spec_show_slot(j, other)) != slot_order(spec_show_slot(k, uid)),
{
}

pub fn show_hero_slots(uids: &Vec<i64>) -> (r: Vec<ShowSlot>)
    ensures
        r@.len() == uids@.len(),
        forall|k: int| 0 <= k < uids@.len() ==> #[trigger] r@[k] == spec_show_slot(k, uids@[k]),
{
    let mut r: Vec<ShowSlot> = Vec::new();
    let mut i: usize = 0;
    while i < uids.len()
        invariant
            i <= uids@.len(),
            r@.len() == i,
            forall|k: int| 0 <= k < i ==> #[trigger] r@[k] == spec_show_slot(k, uids@[k]),
        decreases uids@.len() - i,
    {
        #[verifier::truncate]
        let order = i as i32;
        let uid = uids[i];
        if uid == 0 {
            r.push(ShowSlot::Clear { order });
        } else {
            r.push(ShowSlot::Show { order, hero_uid: uid });
        }
        i = i + 1;
    }
    r
}

} // verus!
