//! Inventory rules: when a quantity may change, when stacked items expire,
//! how new equipment is numbered and locked, and how the rewards of mails
//! add up and are shown to the player.
use vstd::prelude::*;
use crate::game_config::{Equip, InsightItemConfig, PowerItemConfig};
use crate::select::{any_selected, first_at, first_index, last_index, select_first, select_last};
use crate::text::chars_eq_str;
use crate::text::chars_of;
use crate::time::trunc_div;

verus! {

// ---------------------------------------------------------------------------
// Quantities
// ---------------------------------------------------------------------------

/// A change by `delta` of a stock of `current` (none stored counts as 0) is
/// refused only where it takes away more than there is.
pub open spec fn spec_change_allowed(current: Option<i32>, delta: i32) -> bool {
    let c: int = match current {
        Some(c) => c as int,
        None => 0,
    };
    !(delta < 0 && c < -delta)
}

/// Whether a stock may change by `delta`.
pub fn quantity_change_allowed(current: Option<i32>, delta: i32) -> (r: bool)
    requires
        delta != i32::MIN,
    ensures
        r == spec_change_allowed(current, delta),
{
    let c = match current {
        Some(c) => c,
        None => 0,
    };
    !(delta < 0 && c < -delta)
}

/// The stock of a kind held in separate units (power items, insight items):
/// their summed count, truncated to 32 bits as `as i32` does.
pub open spec fn unit_stock(sum: Option<i64>) -> i32 {
    match sum {
        Some(s) => s as i32,
        None => 0,
    }
}

/// Whether a stock held in units may change by `delta`.
pub fn unit_change_allowed(sum: Option<i64>, delta: i32) -> (r: bool)
    requires
        delta != i32::MIN,
    ensures
        r == spec_change_allowed(Some(unit_stock(sum)), delta),
{
    let c: i32 = match sum {
        Some(s) => {
            #[verifier::truncate]
            (s as i32)
        },
        None => 0,
    };
    !(delta < 0 && c < -delta)
}

/// Whether `amount` can be taken from a stock of `current` (none stored
/// counts as 0).
pub fn removal_allowed(current: Option<i32>, amount: i32) -> (r: bool)
    ensures
        r == (match current {
            Some(c) => c,
            None => 0,
        } >= amount),
{
    let c = match current {
        Some(c) => c,
        None => 0,
    };
    c >= amount
}

/// An allowed change never leaves a negative stock behind.
pub proof fn lemma_allowed_change_keeps_stock(current: i32, delta: i32)
    requires
        current >= 0,
        spec_change_allowed(Some(current), delta),
    ensures
        current + delta >= 0,
{
}

// ---------------------------------------------------------------------------
// Expiry of stacked items
// ---------------------------------------------------------------------------

/// Ten days, in seconds.
pub const POWER_ITEM_LIFETIME_SEC: i64 = 864_000;

pub open spec fn power_sel(t: Seq<PowerItemConfig>, id: i32) -> Seq<bool> {
    Seq::new(t.len(), |i: int| t[i].id == id)
}

/// When a new power item expires, in seconds: ten days from now for expiry
/// kinds 1 to 3, never (0) for any other kind or an item without a row.
pub open spec fn spec_power_item_expiry(t: Seq<PowerItemConfig>, id: i32, now_ms: i64) -> int {
    match first_index(power_sel(t, id)) {
        Some(i) => if 1 <= t[i].expire_type <= 3 {
            trunc_div(now_ms as int, 1000) + POWER_ITEM_LIFETIME_SEC
        } else {
            0
        },
        None => 0,
    }
}

pub fn power_item_expire_time(t: &Vec<PowerItemConfig>, item_id: i32, now_ms: i64) -> (r: i64)
    ensures
        r == spec_power_item_expiry(t@, item_id, now_ms),
{
    let mut sel: Vec<bool> = Vec::new();
    let mut i: usize = 0;
    while i < t.len()
        invariant
            i <= t@.len(),
            sel@.len() == i,
            forall|j: int| 0 <= j < i ==> sel@[j] == (t@[j].id == item_id),
        decreases t@.len() - i,
    {
        sel.push(t[i].id == item_id);
        i = i + 1;
    }
    assert(sel@ =~= power_sel(t@, item_id));
    match select_first(&sel) {
        Some(k) => {
            let ty = t[k].expire_type;
            if 1 <= ty && ty <= 3 {
                now_ms / 1000 + POWER_ITEM_LIFETIME_SEC
            } else {
                0
            }
        },
        None => 0,
    }
}

/// A new power item expires ten days (864,000 seconds) after now, counted
/// in whole seconds, where the first table row with its id has expiry kind
/// 1, 2 or 3; it never expires (0) where that row has another kind, or
/// where the table has no row with its id.
pub proof fn lemma_power_item_expiry(t: Seq<PowerItemConfig>, id: i32, now_ms: i64, k: int)
    requires
        0 <= k < t.len(),
        t[k].id == id,
        forall|j: int| 0 <= j < k ==> t[j].id != id,
    ensures
        1 <= t[k].expire_type <= 3 ==> spec_power_item_expiry(t, id, now_ms) == trunc_div(now_ms as int, 1000)
            + 864_000,
        !(1 <= t[k].expire_type <= 3) ==> spec_power_item_expiry(t, id, now_ms) == 0,
{
    let sel = power_sel(t, id);
    assert(first_at(sel, k));
    assert(any_selected(sel));
    let i = choose|i: int| first_at(sel, i);
    assert(first_at(sel, i));
    if i < k {
        assert(sel[i]);
    }
    if k < i {
        assert(!sel[k]);
    }
    assert(i == k);
}

/// An item that has no row in the power item table never expires.
pub proof fn lemma_power_item_without_row(t: Seq<PowerItemConfig>, id: i32, now_ms: i64)
    requires
        forall|j: int| 0 <= j < t.len() ==> t[j].id != id,
    ensures
        spec_power_item_expiry(t, id, now_ms) == 0,
{
    let sel = power_sel(t, id);
    if any_selected(sel) {
        let j = choose|j: int| 0 <= j < sel.len() && sel[j];
        assert(t[j].id == id);
    }
}

pub open spec fn insight_sel(t: Seq<InsightItemConfig>, id: i32) -> Seq<bool> {
    Seq::new(t.len(), |i: int| t[i].id == id)
}

/// When a new insight item expires, in seconds (its row's hours from now,
/// truncated to 32 bits as `as i32` does), or 0 for an item without a row.
pub open spec fn spec_insight_item_expiry(t: Seq<InsightItemConfig>, id: i32, now_ms: i64) -> i32 {
    match first_index(insight_sel(t, id)) {
        Some(i) => (trunc_div(now_ms as int, 1000) + t[i].expire_hours * 3600) as i32,
        None => 0,
    }
}

pub fn insight_item_expire_time(t: &Vec<InsightItemConfig>, item_id: i32, now_ms: i64) -> (r: i32)
    ensures
        r == spec_insight_item_expiry(t@, item_id, now_ms),
{
    let mut sel: Vec<bool> = Vec::new();
    let mut i: usize = 0;
    while i < t.len()
        invariant
            i <= t@.len(),
            sel@.len() == i,
            forall|j: int| 0 <= j < i ==> sel@[j] == (t@[j].id == item_id),
        decreases t@.len() - i,
    {
        sel.push(t[i].id == item_id);
        i = i + 1;
    }
    assert(sel@ =~= insight_sel(t@, item_id));
    match select_first(&sel) {
        Some(k) => {
            let hours = t[k].expire_hours as i64;
            let secs = now_ms / 1000 + hours * 3600;
            #[verifier::truncate]
            (secs as i32)
        },
        None => 0,
    }
}

// ---------------------------------------------------------------------------
// New equipment
// ---------------------------------------------------------------------------

/// Equipment is locked when it arrives where it is of rarity 4 or 5, unless
/// it is one of three named pieces.
pub open spec fn spec_equipment_locked(rare: i32, name_en: Seq<char>) -> bool {
    (rare == 5 || rare == 4) && !(name_en == "Enlighten"@ || name_en == "Gluttony"@ || name_en
        == "Greed"@)
}

pub fn equipment_locked(rare: i32, name_en: &str) -> (r: bool)
    ensures
        r == spec_equipment_locked(rare, name_en@),
{
    let named = chars_of(name_en);
    let exempt = chars_eq_str(named.as_slice(), "Enlighten") || chars_eq_str(
        named.as_slice(),
        "Gluttony",
    ) || chars_eq_str(named.as_slice(), "Greed");
    (rare == 5 || rare == 4) && !exempt
}

/// Pieces of one equipment id to add to an inventory.
#[derive(Debug, Clone)]
pub struct EquipmentGrant {
    pub equip_id: i32,
    pub level: i32,
    pub break_lv: i32,
    pub refine_lv: i32,
    pub is_lock: bool,
    /// The uids of the new pieces, one per piece.
    pub uids: Vec<i64>,
}

pub open spec fn equip_sel(t: Seq<Equip>, id: i32) -> Seq<bool> {
    Seq::new(t.len(), |i: int| t[i].id == id)
}

/// The uid the numbering continues from: one past the largest stored, or
/// 30 000 000 for the first piece ever.
pub open spec fn equipment_base_uid(last: Option<i64>) -> int {
    match last {
        Some(u) => u + 1,
        None => 30_000_000,
    }
}

/// `count` pieces of equipment `equip_id` (the table's last row with that
/// id); `None` where the table has no such row. The new pieces are numbered
/// from one past the base uid on.
pub fn add_equipment(t: &Vec<Equip>, equip_id: i32, count: i32, last_uid: Option<i64>) -> (r: Option<
    EquipmentGrant,
>)
    requires
        equipment_base_uid(last_uid) + 1 + (if count > 0 {
            count as int
        } else {
            0
        }) <= i64::MAX,
    ensures
        r is None <==> last_index(equip_sel(t@, equip_id)) is None,
        r matches Some(g) ==> {
            let row = t@[last_index(equip_sel(t@, equip_id)).unwrap()];
            &&& g.equip_id == equip_id
            &&& g.level == 1
            &&& g.break_lv == 0
            &&& g.refine_lv == 0
            &&& g.is_lock == spec_equipment_locked(row.rare, row.name_en@)
            &&& g.uids@.len() == (if count > 0 {
                count as int
            } else {
                0
            })
            &&& forall|k: int|
                0 <= k < g.uids@.len() ==> #[trigger] g.uids@[k] == equipment_base_uid(last_uid)
                    + 1 + k
        },
{
    let mut sel: Vec<bool> = Vec::new();
    let mut i: usize = 0;
    while i < t.len()
        invariant
            i <= t@.len(),
            sel@.len() == i,
            forall|j: int| 0 <= j < i ==> sel@[j] == (t@[j].id == equip_id),
        decreases t@.len() - i,
    {
        sel.push(t[i].id == equip_id);
        i = i + 1;
    }
    assert(sel@ =~= equip_sel(t@, equip_id));
    let k = match select_last(&sel) {
        Some(k) => k,
        None => return None,
    };
    let is_lock = equipment_locked(t[k].rare, t[k].name_en.as_str());
    let base: i64 = match last_uid {
        Some(u) => u + 1,
        None => 30_000_000,
    };
    let mut uids: Vec<i64> = Vec::new();
    let mut n: i32 = 0;
    while n < count
        invariant
            0 <= n,
            n <= count || count <= 0,
            count > 0 ==> n <= count,
            count <= 0 ==> n == 0,
            base == equipment_base_uid(last_uid),
            base + 1 + (if count > 0 {
                count as int
            } else {
                0
            }) <= i64::MAX,
            uids@.len() == n,
            forall|j: int| 0 <= j < n ==> #[trigger] uids@[j] == base + 1 + j,
        decreases count - n,
    {
        uids.push(base + 1 + n as i64);
        n = n + 1;
    }
    Some(
        EquipmentGrant {
            equip_id,
            level: 1,
            break_lv: 0,
            refine_lv: 0,
            is_lock,
            uids,
        },
    )
}

/// New pieces of equipment get distinct uids above every stored one.
pub proof fn lemma_equipment_uids_fresh(last: Option<i64>, i: int, j: int)
    requires
        0 <= i < j,
    ensures
        last matches Some(u) ==> equipment_base_uid(last) + 1 + i > u,
        equipment_base_uid(last) + 1 + i < equipment_base_uid(last) + 1 + j,
{
}

// ---------------------------------------------------------------------------
// Mail rewards
// ---------------------------------------------------------------------------

/// What the attachments of mails grant, by kind: `(id, amount)` pairs.
#[derive(Debug, Clone)]
pub struct MailRewards {
    pub items: Vec<(u32, i32)>,
    pub currencies: Vec<(i32, i32)>,
    pub equips: Vec<(u32, i32)>,
    pub heroes: Vec<(u32, i32)>,
    pub power_items: Vec<(u32, i32)>,
    pub insight_selectors: Vec<(u32, i32)>,
}

/// Material kinds as the client shows them.
pub const MATERIAL_ITEM: i32 = 1;
pub const MATERIAL_CURRENCY: i32 = 2;
pub const MATERIAL_HERO: i32 = 4;
pub const MATERIAL_EQUIP: i32 = 9;
pub const MATERIAL_POWER_ITEM: i32 = 10;
pub const MATERIAL_INSIGHT_SELECTOR: i32 = 24;

pub open spec fn tagged(kind: i32, v: Seq<(u32, i32)>) -> Seq<(i32, u32, i32)> {
    Seq::new(v.len(), |i: int| (kind, v[i].0, v[i].1))
}

pub open spec fn tagged_currencies(v: Seq<(i32, i32)>) -> Seq<(i32, u32, i32)> {
    Seq::new(v.len(), |i: int| (MATERIAL_CURRENCY, v[i].0 as u32, v[i].1))
}

/// The material changes shown for a set of rewards: items, currencies,
/// equipment, heroes, power items and insight selectors, in that order.
pub open spec fn spec_material_changes(r: MailRewards) -> Seq<(i32, u32, i32)> {
    tagged(MATERIAL_ITEM, r.items@) + tagged_currencies(r.currencies@) + tagged(
        MATERIAL_EQUIP,
        r.equips@,
    ) + tagged(MATERIAL_HERO, r.heroes@) + tagged(MATERIAL_POWER_ITEM, r.power_items@) + tagged(
        MATERIAL_INSIGHT_SELECTOR,
        r.insight_selectors@,
    )
}

fn push_tagged(out: &mut Vec<(i32, u32, i32)>, kind: i32, v: &Vec<(u32, i32)>)
    ensures
        final(out)@ == old(out)@ + tagged(kind, v@),
{
    let ghost start = out@;
    let mut i: usize = 0;
    while i < v.len()
        invariant
            i <= v@.len(),
            out@ == start + tagged(kind, v@).take(i as int),
        decreases v@.len() - i,
    {
        out.push((kind, v[i].0, v[i].1));
        i = i + 1;
        assert(tagged(kind, v@).take(i as int) =~= tagged(kind, v@).take(i - 1).push(
            (kind, v@[i - 1].0, v@[i - 1].1),
        ));
    }
    assert(tagged(kind, v@).take(v@.len() as int) =~= tagged(kind, v@));
}

pub fn material_changes(r: &MailRewards) -> (out: Vec<(i32, u32, i32)>)
    ensures
        out@ == spec_material_changes(*r),
{
    let mut out: Vec<(i32, u32, i32)> = Vec::new();
    push_tagged(&mut out, MATERIAL_ITEM, &r.items);
    let ghost start = out@;
    let mut i: usize = 0;
    while i < r.currencies.len()
        invariant
            i <= r.currencies@.len(),
            out@ == start + tagged_currencies(r.currencies@).take(i as int),
        decreases r.currencies@.len() - i,
    {
        let (id, n) = r.currencies[i];
        #[verifier::truncate]
        let uid = id as u32;
        out.push((MATERIAL_CURRENCY, uid, n));
        i = i + 1;
        assert(tagged_currencies(r.currencies@).take(i as int) =~= tagged_currencies(
            r.currencies@,
        ).take(i - 1).push((MATERIAL_CURRENCY, r.currencies@[i - 1].0 as u32, r.currencies@[i
            - 1].1)));
    }
    assert(tagged_currencies(r.currencies@).take(r.currencies@.len() as int) =~= tagged_currencies(
        r.currencies@,
    ));
    push_tagged(&mut out, MATERIAL_EQUIP, &r.equips);
    push_tagged(&mut out, MATERIAL_HERO, &r.heroes);
    push_tagged(&mut out, MATERIAL_POWER_ITEM, &r.power_items);
    push_tagged(&mut out, MATERIAL_INSIGHT_SELECTOR, &r.insight_selectors);
    out
}

fn append_u(a: &mut Vec<(u32, i32)>, b: &Vec<(u32, i32)>)
    ensures
        final(a)@ == old(a)@ + b@,
{
    let ghost start = a@;
    let mut i: usize = 0;
    while i < b.len()
        invariant
            i <= b@.len(),
            a@ == start + b@.take(i as int),
        decreases b@.len() - i,
    {
        a.push(b[i]);
        i = i + 1;
        assert(b@.take(i as int) =~= b@.take(i - 1).push(b@[i - 1]));
    }
    assert(b@.take(b@.len() as int) =~= b@);
}

fn append_i(a: &mut Vec<(i32, i32)>, b: &Vec<(i32, i32)>)
    ensures
        final(a)@ == old(a)@ + b@,
{
    let ghost start = a@;
    let mut i: usize = 0;
    while i < b.len()
        invariant
            i <= b@.len(),
            a@ == start + b@.take(i as int),
        decreases b@.len() - i,
    {
        a.push(b[i]);
        i = i + 1;
        assert(b@.take(i as int) =~= b@.take(i - 1).push(b@[i - 1]));
    }
    assert(b@.take(b@.len() as int) =~= b@);
}

/// Adds the rewards of one more mail to a running total, kind by kind.
pub fn add_rewards(total: &mut MailRewards, more: &MailRewards)
    ensures
        final(total).items@ == old(total).items@ + more.items@,
        final(total).currencies@ == old(total).currencies@ + more.currencies@,
        final(total).equips@ == old(total).equips@ + more.equips@,
        final(total).heroes@ == old(total).heroes@ + more.heroes@,
        final(total).power_items@ == old(total).power_items@ + more.power_items@,
        final(total).insight_selectors@ == old(total).insight_selectors@ + more.insight_selectors@,
{
    append_u(&mut total.items, &more.items);
    append_i(&mut total.currencies, &more.currencies);
    append_u(&mut total.equips, &more.equips);
    append_u(&mut total.heroes, &more.heroes);
    append_u(&mut total.power_items, &more.power_items);
    append_u(&mut total.insight_selectors, &more.insight_selectors);
}

// ---------------------------------------------------------------------------
// Claiming all unread mails at once
// ---------------------------------------------------------------------------

/// The rewards of a set of mails, kind by kind, as sequences: items,
/// currencies, equipment, heroes, power items, insight selectors.
pub open spec fn rewards_view(r: MailRewards) -> (
    Seq<(u32, i32)>,
    Seq<(i32, i32)>,
    Seq<(u32, i32)>,
    Seq<(u32, i32)>,
    Seq<(u32, i32)>,
    Seq<(u32, i32)>,
) {
    (r.items@, r.currencies@, r.equips@, r.heroes@, r.power_items@, r.insight_selectors@)
}

/// The rewards of the mails put together in order, kind by kind.
pub open spec fn summed_rewards(mails: Seq<(i64, MailRewards)>) -> (
    Seq<(u32, i32)>,
    Seq<(i32, i32)>,
    Seq<(u32, i32)>,
    Seq<(u32, i32)>,
    Seq<(u32, i32)>,
    Seq<(u32, i32)>,
)
    decreases mails.len(),
{
    if mails.len() == 0 {
        (Seq::empty(), Seq::empty(), Seq::empty(), Seq::empty(), Seq::empty(), Seq::empty())
    } else {
        let t = summed_rewards(mails.drop_last());
        let m = rewards_view(mails.last().1);
        (t.0 + m.0, t.1 + m.1, t.2 + m.2, t.3 + m.3, t.4 + m.4, t.5 + m.5)
    }
}

/// What a hero reward gives: a new hero, or a duplicate of one the player
/// has (or gets earlier in the same claim).
#[derive(Debug, Clone, Copy, PartialEq, Eq)]
pub enum HeroGrant {
    Create(i32),
    Duplicate(i32),
}

/// Hero `k` of the rewards (its id as `as i32` gives it) is new where the
/// player owns no such hero and no earlier hero reward of the claim is it.
pub open spec fn spec_hero_grant(heroes: Seq<(u32, i32)>, owned: Seq<i32>, k: int) -> HeroGrant {
    let id = heroes[k].0 as i32;
    if !owned.contains(id) && !(exists|j: int| 0 <= j < k && #[trigger] heroes[j].0 as i32 == id) {
        HeroGrant::Create(id)
    } else {
        HeroGrant::Duplicate(id)
    }
}

/// What claiming every unread mail comes to: the mails to mark claimed, the
/// rewards of all of them together, what each hero reward gives, and the
/// changes shown to the player.
#[derive(Debug, Clone)]
pub struct MailClaim {
    pub incr_ids: Vec<i64>,
    pub totals: MailRewards,
    pub heroes: Vec<HeroGrant>,
    pub material_changes: Vec<(i32, u32, i32)>,
}

fn contains_id(v: &Vec<i32>, x: i32) -> (r: bool)
    ensures
        r == v@.contains(x),
{
    let mut i: usize = 0;
    while i < v.len()
        invariant
            i <= v@.len(),
            forall|j: int| 0 <= j < i ==> v@[j] != x,
        decreases v@.len() - i,
    {
        if v[i] == x {
            assert(v@[i as int] == x);
            return true;
        }
        i = i + 1;
    }
    false
}

fn hero_id_of(h: (u32, i32)) -> (r: i32)
    ensures
        r == h.0 as i32,
{
    #[verifier::truncate]
    (h.0 as i32)
}

fn earlier_hero(heroes: &Vec<(u32, i32)>, k: usize, id: i32) -> (r: bool)
    requires
        k <= heroes@.len(),
    ensures
        r == exists|j: int| 0 <= j < k && #[trigger] heroes@[j].0 as i32 == id,
{
    let mut j: usize = 0;
    while j < k
        invariant
            k <= heroes@.len(),
            j <= k,
            forall|i: int| 0 <= i < j ==> #[trigger] heroes@[i].0 as i32 != id,
        decreases k - j,
    {
        if hero_id_of(heroes[j]) == id {
            return true;
        }
        j = j + 1;
    }
    false
}

/// Claims every mail given, in order, for a player who owns the heroes
/// `owned`.
pub fn claim_plan(mails: &Vec<(i64, MailRewards)>, owned: &Vec<i32>) -> (p: MailClaim)
    ensures
        p.incr_ids@.len() == mails@.len(),
        forall|k: int| 0 <= k < mails@.len() ==> #[trigger] p.incr_ids@[k] == mails@[k].0,
        rewards_view(p.totals) == summed_rewards(mails@),
        p.heroes@.len() == p.totals.heroes@.len(),
        forall|k: int|
            0 <= k < p.heroes@.len() ==> #[trigger] p.heroes@[k] == spec_hero_grant(
                p.totals.heroes@,
                owned@,
                k,
            ),
        p.material_changes@ == spec_material_changes(p.totals),
{
    let mut totals = MailRewards {
        items: Vec::new(),
        currencies: Vec::new(),
        equips: Vec::new(),
        heroes: Vec::new(),
        power_items: Vec::new(),
        insight_selectors: Vec::new(),
    };
    let mut incr_ids: Vec<i64> = Vec::new();
    let mut i: usize = 0;
    assert(rewards_view(totals) =~= summed_rewards(mails@.take(0)));
    while i < mails.len()
        invariant
            i <= mails@.len(),
            incr_ids@.len() == i,
            forall|k: int| 0 <= k < i ==> #[trigger] incr_ids@[k] == mails@[k].0,
            rewards_view(totals) == summed_rewards(mails@.take(i as int)),
        decreases mails@.len() - i,
    {
        assert(mails@.take(i + 1).drop_last() =~= mails@.take(i as int));
        incr_ids.push(mails[i].0);
        add_rewards(&mut totals, &mails[i].1);
        i = i + 1;
    }
    assert(mails@.take(mails@.len() as int) =~= mails@);
    let mut heroes: Vec<HeroGrant> = Vec::new();
    let mut k: usize = 0;
    while k < totals.heroes.len()
        invariant
            k <= totals.heroes@.len(),
            heroes@.len() == k,
            forall|j: int|
                0 <= j < k ==> #[trigger] heroes@[j] == spec_hero_grant(totals.heroes@, owned@, j),
        decreases totals.heroes@.len() - k,
    {
        let id = hero_id_of(totals.heroes[k]);
        if !contains_id(owned, id) && !earlier_hero(&totals.heroes, k, id) {
            heroes.push(HeroGrant::Create(id));
        } else {
            heroes.push(HeroGrant::Duplicate(id));
        }
        k = k + 1;
    }
    let material_changes = material_changes(&totals);
    MailClaim { incr_ids, totals, heroes, material_changes }
}

/// A claim creates no hero the player owns and none twice: two hero
/// rewards that both create a hero create different ones.
pub proof fn lemma_claim_creates_once(heroes: Seq<(u32, i32)>, owned: Seq<i32>, j: int, k: int)
    requires
        0 <= j < k < heroes.len(),
        spec_hero_grant(heroes, owned, j) is Create,
        spec_hero_grant(heroes, owned, k) is Create,
    ensures
        heroes[j].0 as i32 != heroes[k].0 as i32,
        !owned.contains(heroes[k].0 as i32),
{
    if heroes[j].0 as i32 == heroes[k].0 as i32 {
        assert(exists|i: int| 0 <= i < k && #[trigger] heroes[i].0 as i32 == heroes[k].0 as i32);
    }
}


/// The mails still to claim, in order: those whose state is 0.
pub open spec fn unclaimed_mails(mails: Seq<(i64, i32, MailRewards)>) -> Seq<(i64, MailRewards)>
    decreases mails.len(),
{
    if mails.len() == 0 {
        Seq::empty()
    } else {
        let rest = unclaimed_mails(mails.drop_last());
        let m = mails.last();
        if m.1 == 0 {
            rest.push((m.0, m.2))
        } else {
            rest
        }
    }
}

/// The state of a mail after a batch claim: claimed (1) where it was
/// unclaimed (0), else as it was.
pub open spec fn state_after_claim(state: i32) -> i32 {
    if state == 0 {
        1
    } else {
        state
    }
}

/// The mails after a batch claim: the same mails, each in its state after
/// the claim.
pub open spec fn mails_after_claim(mails: Seq<(i64, i32, MailRewards)>) -> Seq<(i64, i32, MailRewards)> {
    Seq::new(mails.len(), |k: int| (mails[k].0, state_after_claim(mails[k].1), mails[k].2))
}

/// `p` is the claim of `mails` (in order) for a player who owns `owned`, as
/// `claim_plan` computes it.
pub open spec fn is_claim_of(p: MailClaim, mails: Seq<(i64, MailRewards)>, owned: Seq<i32>) -> bool {
    &&& p.incr_ids@.len() == mails.len()
    &&& forall|k: int| 0 <= k < mails.len() ==> #[trigger] p.incr_ids@[k] == mails[k].0
    &&& rewards_view(p.totals) == summed_rewards(mails)
    &&& p.heroes@.len() == p.totals.heroes@.len()
    &&& forall|k: int|
        0 <= k < p.heroes@.len() ==> #[trigger] p.heroes@[k] == spec_hero_grant(p.totals.heroes@, owned, k)
    &&& p.material_changes@ == spec_material_changes(p.totals)
}

/// A batch claim over the player's mails with their states (0 for
/// unclaimed): the claim of the unclaimed mails, in order, and the state of
/// every mail afterwards.
pub fn claim_batch(mails: &Vec<(i64, i32, MailRewards)>, owned: &Vec<i32>) -> (r: (MailClaim, Vec<i32>))
    ensures
        is_claim_of(r.0, unclaimed_mails(mails@), owned@),
        r.1@.len() == mails@.len(),
        forall|k: int| 0 <= k < mails@.len() ==> #[trigger] r.1@[k] == state_after_claim(mails@[k].1),
{
    let mut open: Vec<(i64, MailRewards)> = Vec::new();
    let mut states: Vec<i32> = Vec::new();
    let mut i: usize = 0;
    while i < mails.len()
        invariant
            i <= mails@.len(),
            same_mails(open@, unclaimed_mails(mails@.take(i as int))),
            states@.len() == i,
            forall|k: int| 0 <= k < i ==> #[trigger] states@[k] == state_after_claim(mails@[k].1),
        decreases mails@.len() - i,
    {
        assert(mails@.take(i + 1).drop_last() =~= mails@.take(i as int));
        let state = mails[i].1;
        if state == 0 {
            let mut copy = MailRewards {
                items: Vec::new(),
                currencies: Vec::new(),
                equips: Vec::new(),
                heroes: Vec::new(),
                power_items: Vec::new(),
                insight_selectors: Vec::new(),
            };
            add_rewards(&mut copy, &mails[i].2);
            assert(rewards_view(copy) == rewards_view(mails@[i as int].2));
            open.push((mails[i].0, copy));
            states.push(1);
        } else {
            states.push(state);
        }
        i = i + 1;
    }
    assert(mails@.take(mails@.len() as int) =~= mails@);
    let plan = claim_plan(&open, owned);
    proof {
        lemma_same_mails_same_sum(open@, unclaimed_mails(mails@));
    }
    (plan, states)
}

/// Two lists of mails with the same ids and the same rewards, mail by mail.
pub open spec fn same_mails(a: Seq<(i64, MailRewards)>, b: Seq<(i64, MailRewards)>) -> bool {
    &&& a.len() == b.len()
    &&& forall|k: int| 0 <= k < a.len() ==> #[trigger] a[k].0 == b[k].0 && rewards_view(a[k].1) == rewards_view(b[k].1)
}

proof fn lemma_same_mails_same_sum(a: Seq<(i64, MailRewards)>, b: Seq<(i64, MailRewards)>)
    requires
        same_mails(a, b),
    ensures
        summed_rewards(a) == summed_rewards(b),
    decreases a.len(),
{
    if a.len() > 0 {
        assert(same_mails(a.drop_last(), b.drop_last()));
        lemma_same_mails_same_sum(a.drop_last(), b.drop_last());
        let k = a.len() - 1;
        assert(a[k].0 == b[k].0);
    }
}

proof fn lemma_none_unclaimed_after(mails: Seq<(i64, i32, MailRewards)>)
    ensures
        unclaimed_mails(mails_after_claim(mails)).len() == 0,
    decreases mails.len(),
{
    if mails.len() > 0 {
        assert(mails_after_claim(mails).drop_last() =~= mails_after_claim(mails.drop_last()));
        lemma_none_unclaimed_after(mails.drop_last());
    }
}

/// A second batch claim right after the first finds nothing to claim: its
/// claim marks no mail and grants no reward of any kind, no hero and no
/// material change.
pub proof fn lemma_second_claim_grants_nothing(mails: Seq<(i64, i32, MailRewards)>, owned: Seq<i32>, p: MailClaim)
    requires
        is_claim_of(p, unclaimed_mails(mails_after_claim(mails)), owned),
    ensures
        p.incr_ids@.len() == 0,
        p.totals.items@.len() == 0,
        p.totals.currencies@.len() == 0,
        p.totals.equips@.len() == 0,
        p.totals.heroes@.len() == 0,
        p.totals.power_items@.len() == 0,
        p.totals.insight_selectors@.len() == 0,
        p.heroes@.len() == 0,
        p.material_changes@.len() == 0,
{
    lemma_none_unclaimed_after(mails);
    let u = unclaimed_mails(mails_after_claim(mails));
    assert(summed_rewards(u) == summed_rewards(Seq::<(i64, MailRewards)>::empty()));
}

} // verus!
