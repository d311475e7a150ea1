//! Daily login: which resets a login triggers, the shop goods that weekly
//! and monthly resets clear, the heroes whose birthday is today, and the
//! seven-day login activity.
use vstd::prelude::*;
use crate::game_config::{Character, StoreChargeGoods, StoreGoods};
use crate::select::{filtered, select_values};
use crate::text::{chars_of, parse_u32, spec_parse_u32, split_once_chars, split_once_on};
use crate::time::{
    in_calendar_range, spec_server_day, spec_server_month, spec_server_week, ServerTime, DAY_MS,
    RESET_OFFSET_MS,
};

verus! {

/// The resets that a login triggers.
#[derive(Debug, Clone, Copy, PartialEq, Eq)]
pub struct LoginFlags {
    pub new_day: bool,
    pub new_week: bool,
    pub new_month: bool,
}

/// A login at `now` after the last sign-in at `last` starts a new day, week
/// or month where the server calendar says so; with no earlier sign-in (none
/// stored, or stored as 0 or less) all three are new.
pub open spec fn spec_login_flags(last: Option<i64>, now: i64) -> LoginFlags {
    match last {
        Some(l) => if l > 0 {
            LoginFlags {
                new_day: spec_server_day(l as int) != spec_server_day(now as int),
                new_week: spec_server_week(l) != spec_server_week(now),
                new_month: spec_server_month(l) != spec_server_month(now),
            }
        } else {
            LoginFlags { new_day: true, new_week: true, new_month: true }
        },
        None => LoginFlags { new_day: true, new_week: true, new_month: true },
    }
}

pub fn login_flags(last: Option<i64>, now: i64) -> (r: LoginFlags)
    requires
        in_calendar_range(now),
        last matches Some(l) ==> (l > 0 ==> in_calendar_range(l)),
    ensures
        r == spec_login_flags(last, now),
{
    match last {
        Some(l) => if l > 0 {
            LoginFlags {
                new_day: ServerTime::is_new_day(l, now),
                new_week: !ServerTime::is_same_week(l, now),
                new_month: !ServerTime::is_same_month(l, now),
            }
        } else {
            LoginFlags { new_day: true, new_week: true, new_month: true }
        },
        None => LoginFlags { new_day: true, new_week: true, new_month: true },
    }
}

/// Two logins on the same server day (after the first reset of the epoch)
/// are also in the same server week: a login that starts no new day starts
/// no new week either.
pub proof fn lemma_same_day_same_week(last: i64, now: i64)
    requires
        RESET_OFFSET_MS <= last,
        RESET_OFFSET_MS <= now,
        in_calendar_range(last),
        in_calendar_range(now),
        !spec_login_flags(Some(last), now).new_day,
    ensures
        !spec_login_flags(Some(last), now).new_week,
{
    crate::time::lemma_same_day_same_week(last, now);
}

/// The weekly reset follows the server week, which starts on Monday at
/// 05:00 UTC (server day 0, 1970-01-01, is a Thursday): after a last
/// sign-in past the first reset of the epoch, a login starts a new week
/// exactly when the two moments fall in different Monday-started weeks,
/// whether or not the month changes; in particular a login a week or more
/// later always starts a new week.
pub proof fn lemma_new_week_by_monday_weeks(last: i64, now: i64)
    requires
        RESET_OFFSET_MS <= last,
        RESET_OFFSET_MS <= now,
    ensures
        spec_login_flags(Some(last), now).new_week <==> ((last - RESET_OFFSET_MS) / (DAY_MS as int) + 3) / 7 != ((now
            - RESET_OFFSET_MS) / (DAY_MS as int) + 3) / 7,
        now - last >= 7 * DAY_MS ==> spec_login_flags(Some(last), now).new_week,
{
    let x1: int = last - RESET_OFFSET_MS;
    let x2: int = now - RESET_OFFSET_MS;
    vstd::arithmetic::div_mod::lemma_div_denominator(x1, 1000, 86_400);
    vstd::arithmetic::div_mod::lemma_div_denominator(x2, 1000, 86_400);
    assert(1000 * 86_400 == DAY_MS);
    vstd::arithmetic::div_mod::lemma_div_pos_is_pos(x1, 1000);
    vstd::arithmetic::div_mod::lemma_div_pos_is_pos(x2, 1000);
    vstd::arithmetic::div_mod::lemma_div_pos_is_pos(x1, DAY_MS as int);
    vstd::arithmetic::div_mod::lemma_div_pos_is_pos(x2, DAY_MS as int);
    assert(spec_server_week(last) == (x1 / (DAY_MS as int) + 3) / 7);
    assert(spec_server_week(now) == (x2 / (DAY_MS as int) + 3) / 7);
    if now - last >= 7 * DAY_MS {
        let d1 = x1 / (DAY_MS as int);
        let d2 = x2 / (DAY_MS as int);
        assert(d2 >= d1 + 7) by (nonlinear_arith)
            requires
                x2 >= x1 + 7 * 86_400_000,
                d1 == x1 / 86_400_000,
                d2 == x2 / 86_400_000,
                x1 >= 0,
        {
            vstd::arithmetic::div_mod::lemma_fundamental_div_mod(x1, 86_400_000);
            vstd::arithmetic::div_mod::lemma_fundamental_div_mod(x2, 86_400_000);
        }
        assert((d2 + 3) / 7 >= (d1 + 3) / 7 + 1) by (nonlinear_arith)
            requires
                d2 >= d1 + 7,
                d1 >= 0,
        {
            vstd::arithmetic::div_mod::lemma_fundamental_div_mod(d1 + 3, 7);
            vstd::arithmetic::div_mod::lemma_fundamental_div_mod(d2 + 3, 7);
        }
    }
}

/// The daily and monthly resets follow the server calendar, whose days
/// begin at 05:00 UTC: after a last sign-in past the first reset of the
/// epoch, a login starts a new day exactly when the two moments fall in
/// different 05:00-to-05:00 days (so always when a day or more apart), and
/// a new month exactly when their server dates (the UTC dates five hours
/// earlier) differ in year or month, which the server month
/// (`year * 100 + month`) tells. With no earlier sign-in every reset
/// happens.
pub proof fn lemma_new_day_and_month(last: i64, now: i64)
    ensures
        last >= RESET_OFFSET_MS && now >= RESET_OFFSET_MS ==> (spec_login_flags(Some(last), now).new_day
            <==> (last - RESET_OFFSET_MS) / (DAY_MS as int) != (now - RESET_OFFSET_MS) / (DAY_MS as int)),
        last >= RESET_OFFSET_MS && now - last >= DAY_MS ==> spec_login_flags(Some(last), now).new_day,
        last > 0 ==> (spec_login_flags(Some(last), now).new_month <==> spec_server_month(last)
            != spec_server_month(now)),
        last <= 0 ==> spec_login_flags(Some(last), now) == (LoginFlags {
            new_day: true,
            new_week: true,
            new_month: true,
        }),
        spec_login_flags(None, now) == (LoginFlags { new_day: true, new_week: true, new_month: true }),
{
    if last >= RESET_OFFSET_MS && now - last >= DAY_MS {
        let x1: int = last - RESET_OFFSET_MS;
        let x2: int = now - RESET_OFFSET_MS;
        assert(x2 / 86_400_000 >= x1 / 86_400_000 + 1) by (nonlinear_arith)
            requires
                x2 >= x1 + 86_400_000,
                x1 >= 0,
        {
            vstd::arithmetic::div_mod::lemma_fundamental_div_mod(x1, 86_400_000);
            vstd::arithmetic::div_mod::lemma_fundamental_div_mod(x2, 86_400_000);
        }
        vstd::arithmetic::div_mod::lemma_div_pos_is_pos(x2, 86_400_000);
    }
}

/// A login that starts no new day (after the first reset of the epoch)
/// starts no new month either: a new month is always a new day.
pub proof fn lemma_same_day_same_month(last: i64, now: i64)
    requires
        RESET_OFFSET_MS <= last,
        RESET_OFFSET_MS <= now,
        in_calendar_range(last),
        in_calendar_range(now),
        !spec_login_flags(Some(last), now).new_day,
    ensures
        !spec_login_flags(Some(last), now).new_month,
{
    crate::time::lemma_same_day_same_date(last, now);
}

// ---------------------------------------------------------------------------
// Goods cleared by the resets
// ---------------------------------------------------------------------------

pub open spec fn goods_ids(t: Seq<StoreGoods>) -> Seq<i32> {
    Seq::new(t.len(), |i: int| t[i].id)
}

pub open spec fn goods_sel(t: Seq<StoreGoods>, refresh: i32) -> Seq<bool> {
    Seq::new(t.len(), |i: int| t[i].refresh_time == refresh)
}

pub open spec fn charge_ids(t: Seq<StoreChargeGoods>) -> Seq<i32> {
    Seq::new(t.len(), |i: int| t[i].id)
}

/// Charge goods bought once a week: those in order slot 40.
pub open spec fn weekly_charge(g: StoreChargeGoods) -> bool {
    g.order == 40
}

/// Charge goods bought once a month: those of store 614 in order slots 120,
/// 311, 312, 350, 500 and 600.
pub open spec fn monthly_charge(g: StoreChargeGoods) -> bool {
    g.belong_store_id == 614 && (g.order == 120 || g.order == 311 || g.order == 312 || g.order
        == 350 || g.order == 500 || g.order == 600)
}

pub open spec fn charge_sel(t: Seq<StoreChargeGoods>, monthly: bool) -> Seq<bool> {
    Seq::new(
        t.len(),
        |i: int|
            if monthly {
                monthly_charge(t[i])
            } else {
                weekly_charge(t[i])
            },
    )
}

/// The store goods with the given refresh kind (2: weekly, 3: monthly).
pub fn goods_with_refresh(t: &Vec<StoreGoods>, refresh: i32) -> (r: Vec<i32>)
    ensures
        r@ == filtered(goods_ids(t@), goods_sel(t@, refresh)),
{
    let mut ids: Vec<i32> = Vec::new();
    let mut sel: Vec<bool> = Vec::new();
    let mut i: usize = 0;
    while i < t.len()
        invariant
            i <= t@.len(),
            ids@.len() == i,
            sel@.len() == i,
            forall|j: int| 0 <= j < i ==> ids@[j] == t@[j].id,
            forall|j: int| 0 <= j < i ==> sel@[j] == (t@[j].refresh_time == refresh),
        decreases t@.len() - i,
    {
        ids.push(t[i].id);
        sel.push(t[i].refresh_time == refresh);
        i = i + 1;
    }
    assert(ids@ =~= goods_ids(t@));
    assert(sel@ =~= goods_sel(t@, refresh));
    select_values(&ids, &sel)
}

/// The store goods whose purchase counts a weekly reset clears.
pub fn weekly_store_goods(t: &Vec<StoreGoods>) -> (r: Vec<i32>)
    ensures
        r@ == filtered(goods_ids(t@), goods_sel(t@, 2)),
{
    goods_with_refresh(t, 2)
}

/// The store goods whose purchase counts a monthly reset clears.
pub fn monthly_store_goods(t: &Vec<StoreGoods>) -> (r: Vec<i32>)
    ensures
        r@ == filtered(goods_ids(t@), goods_sel(t@, 3)),
{
    goods_with_refresh(t, 3)
}

fn charge_goods(t: &Vec<StoreChargeGoods>, monthly: bool) -> (r: Vec<i32>)
    ensures
        r@ == filtered(charge_ids(t@), charge_sel(t@, monthly)),
{
    let mut ids: Vec<i32> = Vec::new();
    let mut sel: Vec<bool> = Vec::new();
    let mut i: usize = 0;
    while i < t.len()
        invariant
            i <= t@.len(),
            ids@.len() == i,
            sel@.len() == i,
            forall|j: int| 0 <= j < i ==> ids@[j] == t@[j].id,
            forall|j: int|
                0 <= j < i ==> sel@[j] == (if monthly {
                    monthly_charge(t@[j])
                } else {
                    weekly_charge(t@[j])
                }),
        decreases t@.len() - i,
    {
        let g = t[i];
        ids.push(g.id);
        let o = g.order;
        let keep = if monthly {
            g.belong_store_id == 614 && (o == 120 || o == 311 || o == 312 || o == 350 || o == 500
                || o == 600)
        } else {
            o == 40
        };
        sel.push(keep);
        i = i + 1;
    }
    assert(ids@ =~= charge_ids(t@));
    assert(sel@ =~= charge_sel(t@, monthly));
    select_values(&ids, &sel)
}

/// The charge goods whose purchase counts a weekly reset clears.
pub fn weekly_charge_goods(t: &Vec<StoreChargeGoods>) -> (r: Vec<i32>)
    ensures
        r@ == filtered(charge_ids(t@), charge_sel(t@, false)),
{
    charge_goods(t, false)
}

/// The charge goods whose purchase counts a monthly reset clears.
pub fn monthly_charge_goods(t: &Vec<StoreChargeGoods>) -> (r: Vec<i32>)
    ensures
        r@ == filtered(charge_ids(t@), charge_sel(t@, true)),
{
    charge_goods(t, true)
}

// ---------------------------------------------------------------------------
// Birthdays
// ---------------------------------------------------------------------------

/// A birthday `month/day` falls on the given date.
pub open spec fn is_birthday(b: Seq<char>, month: u32, day: u32) -> bool {
    match split_once_on(b, '/') {
        Some((m, d)) => spec_parse_u32(m) == Some(month) && spec_parse_u32(d) == Some(day),
        None => false,
    }
}

pub open spec fn character_ids(t: Seq<Character>) -> Seq<i32> {
    Seq::new(t.len(), |i: int| t[i].id)
}

pub open spec fn birthday_sel(t: Seq<Character>, month: u32, day: u32) -> Seq<bool> {
    Seq::new(t.len(), |i: int| is_birthday(t[i].role_birthday@, month, day))
}

fn birthday_on(b: &str, month: u32, day: u32) -> (r: bool)
    ensures
        r == is_birthday(b@, month, day),
{
    let cs = chars_of(b);
    match split_once_chars(cs.as_slice(), '/') {
        Some((m, d)) => {
            let pm = parse_u32(m.as_slice());
            let pd = parse_u32(d.as_slice());
            pm == Some(month) && pd == Some(day)
        },
        None => false,
    }
}

/// The characters whose birthday is `month/day`, in table order.
pub fn birthday_heroes(t: &Vec<Character>, month: u32, day: u32) -> (r: Vec<i32>)
    ensures
        r@ == filtered(character_ids(t@), birthday_sel(t@, month, day)),
{
    let mut ids: Vec<i32> = Vec::new();
    let mut sel: Vec<bool> = Vec::new();
    let mut i: usize = 0;
    while i < t.len()
        invariant
            i <= t@.len(),
            ids@.len() == i,
            sel@.len() == i,
            forall|j: int| 0 <= j < i ==> ids@[j] == t@[j].id,
            forall|j: int| 0 <= j < i ==> sel@[j] == is_birthday(t@[j].role_birthday@, month, day),
        decreases t@.len() - i,
    {
        ids.push(t[i].id);
        sel.push(birthday_on(t[i].role_birthday.as_str(), month, day));
        i = i + 1;
    }
    assert(ids@ =~= character_ids(t@));
    assert(sel@ =~= birthday_sel(t@, month, day));
    select_values(&ids, &sel)
}

// ---------------------------------------------------------------------------
// The seven-day login activity
// ---------------------------------------------------------------------------

/// The state of one day of the activity: 2 once claimed, 1 while claimable
/// (the player has logged in on at least that many days), 0 before.
pub open spec fn day_state(claimed: Seq<i32>, login_count: i32, day: int) -> i32 {
    if claimed.contains(day as i32) {
        2
    } else if day <= login_count {
        1
    } else {
        0
    }
}

pub open spec fn spec_day_states(claimed: Seq<i32>, login_count: i32) -> Seq<(i32, i32)> {
    Seq::new(7, |k: int| ((k + 1) as i32, day_state(claimed, login_count, k + 1)))
}

fn contains_i32(v: &Vec<i32>, x: i32) -> (r: bool)
    ensures
        r == v@.contains(x),
{
    let mut i: usize = 0;
    while i < v.len()
        invariant
            i <= v@.len(),
            forall|j: int| 0 <= j < i ==> v@[j] != x,
        decreases v@.len() - i,
    {
        if v[i] == x {
            assert(v@[i as int] == x);
            return true;
        }
        i = i + 1;
    }
    false
}

/// `(day, state)` for days 1 to 7 of the login activity.
pub fn activity101_day_states(claimed: &Vec<i32>, login_count: i32) -> (r: Vec<(i32, i32)>)
    ensures
        r@ == spec_day_states(claimed@, login_count),
{
    let mut r: Vec<(i32, i32)> = Vec::new();
    let mut day: i32 = 1;
    while day <= 7
        invariant
            1 <= day <= 8,
            r@.len() == day - 1,
            forall|k: int| 0 <= k < day - 1 ==> r@[k] == spec_day_states(claimed@, login_count)[k],
        decreases 8 - day,
    {
        let state = if contains_i32(claimed, day) {
            2
        } else if day <= login_count {
            1
        } else {
            0
        };
        r.push((day, state));
        day = day + 1;
    }
    assert(r@ =~= spec_day_states(claimed@, login_count));
    r
}

/// A claimed day stays claimed whatever the login count, and a day is never
/// claimable before the player has logged in on that many days.
pub proof fn lemma_day_states(claimed: Seq<i32>, login_count: i32, k: int)
    requires
        0 <= k < 7,
    ensures
        claimed.contains((k + 1) as i32) ==> spec_day_states(claimed, login_count)[k].1 == 2,
        spec_day_states(claimed, login_count)[k].1 == 1 ==> k + 1 <= login_count,
        spec_day_states(claimed, login_count)[k].0 == k + 1,
{
}

/// The reward of a day of the login activity.
#[derive(Debug, Clone)]
pub struct DayBonus {
    /// Items granted, `(item id, amount)`.
    pub items: Vec<(u32, i32)>,
    /// The changes shown to the player, `(material kind, id, amount)`.
    pub material_changes: Vec<(i32, u32, i32)>,
}

/// The item each day of the login activity grants.
pub const DAY_BONUS_ITEM: u32 = 140001;

/// Claiming a day of the login activity: nothing where the day was claimed
/// already, else one of the activity's item.
pub fn activity101_bonus(already_claimed: bool) -> (r: Option<DayBonus>)
    ensures
        r is None <==> already_claimed,
        r matches Some(b) ==> b.items@ == seq![(DAY_BONUS_ITEM, 1i32)] && b.material_changes@
            == seq![(crate::inventory::MATERIAL_ITEM, DAY_BONUS_ITEM, 1i32)],
{
    if already_claimed {
        return None;
    }
    let items = vec![(DAY_BONUS_ITEM, 1i32)];
    let material_changes = vec![(crate::inventory::MATERIAL_ITEM, DAY_BONUS_ITEM, 1i32)];
    assert(items@ =~= seq![(DAY_BONUS_ITEM, 1i32)]);
    assert(material_changes@ =~= seq![(crate::inventory::MATERIAL_ITEM, DAY_BONUS_ITEM, 1i32)]);
    Some(DayBonus { items, material_changes })
}


/// The claimed days of the login activities, `(activity id, day id)`, after
/// a claim of `day` of `activity`, and the number of bonus items the claim
/// grants: one where the day was not claimed yet, then recorded as claimed.
pub open spec fn spec_claim_step(claimed: Seq<(i32, i32)>, activity: i32, day: i32) -> (Seq<(i32, i32)>, int) {
    if claimed.contains((activity, day)) {
        (claimed, 0)
    } else {
        (claimed.push((activity, day)), 1)
    }
}

/// Claims `day` of `activity` against the days claimed so far: the days
/// claimed afterwards, and the bonus where the day was not claimed yet.
pub fn claim_day(claimed: &Vec<(i32, i32)>, activity: i32, day: i32) -> (r: (Vec<(i32, i32)>, Option<DayBonus>))
    ensures
        r.0@ == spec_claim_step(claimed@, activity, day).0,
        r.1 is Some <==> spec_claim_step(claimed@, activity, day).1 == 1,
        r.1 matches Some(b) ==> b.items@ == seq![(DAY_BONUS_ITEM, 1i32)],
{
    let mut found = false;
    let mut after: Vec<(i32, i32)> = Vec::new();
    let mut i: usize = 0;
    while i < claimed.len()
        invariant
            i <= claimed.len(),
            after@ == claimed@.subrange(0, i as int),
            found <==> exists|j: int| 0 <= j < i && claimed@[j] == (activity, day),
        decreases claimed.len() - i,
    {
        let (a, d) = claimed[i];
        if a == activity && d == day {
            found = true;
        }
        after.push((a, d));
        i = i + 1;
    }
    assert(after@ =~= claimed@);
    proof {
        if found {
            let j = choose|j: int| 0 <= j < claimed.len() && claimed@[j] == (activity, day);
            assert(claimed@.contains((activity, day)));
        } else {
            assert(!claimed@.contains((activity, day)));
        }
    }
    let bonus = activity101_bonus(found);
    if !found {
        after.push((activity, day));
    }
    proof {
        assert(after@ == spec_claim_step(claimed@, activity, day).0);
    }
    (after, bonus)
}

/// Claiming the same day of a login activity twice grants its bonus at most
/// once: the second claim finds the day claimed and grants nothing.
pub proof fn lemma_repeat_claim_pays_once(claimed: Seq<(i32, i32)>, activity: i32, day: i32)
    ensures
        ({
            let first = spec_claim_step(claimed, activity, day);
            let second = spec_claim_step(first.0, activity, day);
            &&& second.1 == 0
            &&& second.0 == first.0
            &&& first.1 + second.1 <= 1
        }),
{
    let first = spec_claim_step(claimed, activity, day);
    if !claimed.contains((activity, day)) {
        assert(first.0[first.0.len() - 1] == (activity, day));
    }
    assert(first.0.contains((activity, day)));
}

} // verus!
