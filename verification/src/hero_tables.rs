//! Queries on the hero tables: which rows belong to a hero, by which key
//! they are ordered, and the `#`-separated id lists held in the rows.
//!
//! Each query builds the parallel `keys` / `sel` columns that the
//! selections of `select` work on.
use vstd::prelude::*;
use crate::game_config::{
    Character, CharacterDestiny, CharacterLevel, CharacterRank, CharacterTalent, CharacterVoice,
    EquipStrengthen, Skin, SkillPassiveLevel, TalentScheme,
};
use crate::text::{parse_i32, spec_parse_i32, split_chars, split_on, views, chars_of};

verus! {

/// Character ids that stand for non-playable characters and are never
/// handed out as heroes.
pub open spec fn is_playable_id(id: i32) -> bool {
    id != 3029 && id != 9998
}

pub open spec fn character_sel(t: Seq<Character>, hero: i32) -> Seq<bool> {
    Seq::new(t.len(), |i: int| t[i].id == hero && is_playable_id(t[i].id))
}

pub open spec fn level_keys(t: Seq<CharacterLevel>) -> Seq<i32> {
    Seq::new(t.len(), |i: int| t[i].level)
}

pub open spec fn level_sel(t: Seq<CharacterLevel>, hero: i32) -> Seq<bool> {
    Seq::new(t.len(), |i: int| t[i].hero_id == hero)
}

pub open spec fn rank_keys(t: Seq<CharacterRank>) -> Seq<i32> {
    Seq::new(t.len(), |i: int| t[i].rank)
}

pub open spec fn rank_sel(t: Seq<CharacterRank>, hero: i32) -> Seq<bool> {
    Seq::new(t.len(), |i: int| t[i].hero_id == hero)
}

pub open spec fn skin_keys(t: Seq<Skin>) -> Seq<i32> {
    Seq::new(t.len(), |i: int| t[i].id)
}

/// The skins of a hero (rows with character id 0 belong to nobody).
pub open spec fn skin_sel(t: Seq<Skin>, hero: i32) -> Seq<bool> {
    Seq::new(t.len(), |i: int| t[i].character_id != 0 && t[i].character_id == hero)
}

/// The hero's skins other than the given one.
pub open spec fn other_skin_sel(t: Seq<Skin>, hero: i32, own: i32) -> Seq<bool> {
    Seq::new(
        t.len(),
        |i: int| t[i].character_id != 0 && t[i].character_id == hero && t[i].id != own,
    )
}

pub open spec fn destiny_sel(t: Seq<CharacterDestiny>, hero: i32) -> Seq<bool> {
    Seq::new(t.len(), |i: int| t[i].hero_id == hero)
}

pub open spec fn strengthen_sel(t: Seq<EquipStrengthen>, equip_id: i32) -> Seq<bool> {
    Seq::new(t.len(), |i: int| t[i].strength_type == equip_id)
}

pub open spec fn talent_keys(t: Seq<CharacterTalent>) -> Seq<i32> {
    Seq::new(t.len(), |i: int| t[i].talent_id)
}

pub open spec fn talent_sel(t: Seq<CharacterTalent>, hero: i32) -> Seq<bool> {
    Seq::new(t.len(), |i: int| t[i].hero_id == hero)
}

/// The hero's rows for one talent level.
pub open spec fn talent_level_sel(t: Seq<CharacterTalent>, hero: i32, talent: i32) -> Seq<bool> {
    Seq::new(t.len(), |i: int| t[i].hero_id == hero && t[i].talent_id == talent)
}

pub open spec fn scheme_sel(t: Seq<TalentScheme>, talent: i32, mould: i32) -> Seq<bool> {
    Seq::new(t.len(), |i: int| t[i].talent_id == talent && t[i].talent_mould == mould)
}

pub open spec fn passive_group_keys(t: Seq<SkillPassiveLevel>) -> Seq<i32> {
    Seq::new(t.len(), |i: int| t[i].skill_group)
}

pub open spec fn passive_level_keys(t: Seq<SkillPassiveLevel>) -> Seq<i32> {
    Seq::new(t.len(), |i: int| t[i].skill_level)
}

pub open spec fn passive_sel(t: Seq<SkillPassiveLevel>, hero: i32) -> Seq<bool> {
    Seq::new(t.len(), |i: int| t[i].hero_id == hero)
}

pub open spec fn passive_group_sel(t: Seq<SkillPassiveLevel>, hero: i32, group: int) -> Seq<bool> {
    Seq::new(t.len(), |i: int| t[i].hero_id == hero && t[i].skill_group == group)
}

pub open spec fn voice_vals(t: Seq<CharacterVoice>) -> Seq<i32> {
    Seq::new(t.len(), |i: int| t[i].audio)
}

/// The voices a hero has from the start: types 9 and 11.
pub open spec fn voice_sel(t: Seq<CharacterVoice>, hero: i32) -> Seq<bool> {
    Seq::new(
        t.len(),
        |i: int| t[i].hero_id == hero && (t[i].voice_type == 9 || t[i].voice_type == 11),
    )
}

pub fn character_column(t: &Vec<Character>, hero: i32) -> (sel: Vec<bool>)
    ensures
        sel@ == character_sel(t@, hero),
{
    let mut sel: Vec<bool> = Vec::new();
    let mut i: usize = 0;
    while i < t.len()
        invariant
            i <= t@.len(),
            sel@.len() == i,
            forall|j: int| 0 <= j < i ==> sel@[j] == (t@[j].id == hero && is_playable_id(t@[j].id)),
        decreases t@.len() - i,
    {
        let id = t[i].id;
        sel.push(id == hero && id != 3029 && id != 9998);
        i = i + 1;
    }
    assert(sel@ =~= character_sel(t@, hero));
    sel
}

pub fn level_columns(t: &Vec<CharacterLevel>, hero: i32) -> (r: (Vec<i32>, Vec<bool>))
    ensures
        r.0@ == level_keys(t@),
        r.1@ == level_sel(t@, hero),
{
    let mut keys: Vec<i32> = Vec::new();
    let mut sel: Vec<bool> = Vec::new();
    let mut i: usize = 0;
    while i < t.len()
        invariant
            i <= t@.len(),
            keys@.len() == i,
            sel@.len() == i,
            forall|j: int| 0 <= j < i ==> keys@[j] == t@[j].level,
            forall|j: int| 0 <= j < i ==> sel@[j] == (t@[j].hero_id == hero),
        decreases t@.len() - i,
    {
        keys.push(t[i].level);
        sel.push(t[i].hero_id == hero);
        i = i + 1;
    }
    assert(keys@ =~= level_keys(t@));
    assert(sel@ =~= level_sel(t@, hero));
    (keys, sel)
}

pub fn rank_columns(t: &Vec<CharacterRank>, hero: i32) -> (r: (Vec<i32>, Vec<bool>))
    ensures
        r.0@ == rank_keys(t@),
        r.1@ == rank_sel(t@, hero),
{
    let mut keys: Vec<i32> = Vec::new();
    let mut sel: Vec<bool> = Vec::new();
    let mut i: usize = 0;
    while i < t.len()
        invariant
            i <= t@.len(),
            keys@.len() == i,
            sel@.len() == i,
            forall|j: int| 0 <= j < i ==> keys@[j] == t@[j].rank,
            forall|j: int| 0 <= j < i ==> sel@[j] == (t@[j].hero_id == hero),
        decreases t@.len() - i,
    {
        keys.push(t[i].rank);
        sel.push(t[i].hero_id == hero);
        i = i + 1;
    }
    assert(keys@ =~= rank_keys(t@));
    assert(sel@ =~= rank_sel(t@, hero));
    (keys, sel)
}

pub fn skin_columns(t: &Vec<Skin>, hero: i32) -> (r: (Vec<i32>, Vec<bool>))
    ensures
        r.0@ == skin_keys(t@),
        r.1@ == skin_sel(t@, hero),
{
    let mut keys: Vec<i32> = Vec::new();
    let mut sel: Vec<bool> = Vec::new();
    let mut i: usize = 0;
    while i < t.len()
        invariant
            i <= t@.len(),
            keys@.len() == i,
            sel@.len() == i,
            forall|j: int| 0 <= j < i ==> keys@[j] == t@[j].id,
            forall|j: int|
                0 <= j < i ==> sel@[j] == (t@[j].character_id != 0 && t@[j].character_id == hero),
        decreases t@.len() - i,
    {
        keys.push(t[i].id);
        sel.push(t[i].character_id != 0 && t[i].character_id == hero);
        i = i + 1;
    }
    assert(keys@ =~= skin_keys(t@));
    assert(sel@ =~= skin_sel(t@, hero));
    (keys, sel)
}

pub fn other_skin_column(t: &Vec<Skin>, hero: i32, own: i32) -> (sel: Vec<bool>)
    ensures
        sel@ == other_skin_sel(t@, hero, own),
{
    let mut sel: Vec<bool> = Vec::new();
    let mut i: usize = 0;
    while i < t.len()
        invariant
            i <= t@.len(),
            sel@.len() == i,
            forall|j: int|
                0 <= j < i ==> sel@[j] == (t@[j].character_id != 0 && t@[j].character_id == hero
                    && t@[j].id != own),
        decreases t@.len() - i,
    {
        sel.push(t[i].character_id != 0 && t[i].character_id == hero && t[i].id != own);
        i = i + 1;
    }
    assert(sel@ =~= other_skin_sel(t@, hero, own));
    sel
}

pub fn destiny_column(t: &Vec<CharacterDestiny>, hero: i32) -> (sel: Vec<bool>)
    ensures
        sel@ == destiny_sel(t@, hero),
{
    let mut sel: Vec<bool> = Vec::new();
    let mut i: usize = 0;
    while i < t.len()
        invariant
            i <= t@.len(),
            sel@.len() == i,
            forall|j: int| 0 <= j < i ==> sel@[j] == (t@[j].hero_id == hero),
        decreases t@.len() - i,
    {
        sel.push(t[i].hero_id == hero);
        i = i + 1;
    }
    assert(sel@ =~= destiny_sel(t@, hero));
    sel
}

pub fn strengthen_column(t: &Vec<EquipStrengthen>, equip_id: i32) -> (sel: Vec<bool>)
    ensures
        sel@ == strengthen_sel(t@, equip_id),
{
    let mut sel: Vec<bool> = Vec::new();
    let mut i: usize = 0;
    while i < t.len()
        invariant
            i <= t@.len(),
            sel@.len() == i,
            forall|j: int| 0 <= j < i ==> sel@[j] == (t@[j].strength_type == equip_id),
        decreases t@.len() - i,
    {
        sel.push(t[i].strength_type == equip_id);
        i = i + 1;
    }
    assert(sel@ =~= strengthen_sel(t@, equip_id));
    sel
}

pub fn talent_columns(t: &Vec<CharacterTalent>, hero: i32) -> (r: (Vec<i32>, Vec<bool>))
    ensures
        r.0@ == talent_keys(t@),
        r.1@ == talent_sel(t@, hero),
{
    let mut keys: Vec<i32> = Vec::new();
    let mut sel: Vec<bool> = Vec::new();
    let mut i: usize = 0;
    while i < t.len()
        invariant
            i <= t@.len(),
            keys@.len() == i,
            sel@.len() == i,
            forall|j: int| 0 <= j < i ==> keys@[j] == t@[j].talent_id,
            forall|j: int| 0 <= j < i ==> sel@[j] == (t@[j].hero_id == hero),
        decreases t@.len() - i,
    {
        keys.push(t[i].talent_id);
        sel.push(t[i].hero_id == hero);
        i = i + 1;
    }
    assert(keys@ =~= talent_keys(t@));
    assert(sel@ =~= talent_sel(t@, hero));
    (keys, sel)
}

pub fn talent_level_column(t: &Vec<CharacterTalent>, hero: i32, talent: i32) -> (sel: Vec<bool>)
    ensures
        sel@ == talent_level_sel(t@, hero, talent),
{
    let mut sel: Vec<bool> = Vec::new();
    let mut i: usize = 0;
    while i < t.len()
        invariant
            i <= t@.len(),
            sel@.len() == i,
            forall|j: int|
                0 <= j < i ==> sel@[j] == (t@[j].hero_id == hero && t@[j].talent_id == talent),
        decreases t@.len() - i,
    {
        sel.push(t[i].hero_id == hero && t[i].talent_id == talent);
        i = i + 1;
    }
    assert(sel@ =~= talent_level_sel(t@, hero, talent));
    sel
}

pub fn scheme_column(t: &Vec<TalentScheme>, talent: i32, mould: i32) -> (sel: Vec<bool>)
    ensures
        sel@ == scheme_sel(t@, talent, mould),
{
    let mut sel: Vec<bool> = Vec::new();
    let mut i: usize = 0;
    while i < t.len()
        invariant
            i <= t@.len(),
            sel@.len() == i,
            forall|j: int|
                0 <= j < i ==> sel@[j] == (t@[j].talent_id == talent && t@[j].talent_mould
                    == mould),
        decreases t@.len() - i,
    {
        sel.push(t[i].talent_id == talent && t[i].talent_mould == mould);
        i = i + 1;
    }
    assert(sel@ =~= scheme_sel(t@, talent, mould));
    sel
}

pub fn passive_group_columns(t: &Vec<SkillPassiveLevel>, hero: i32) -> (r: (Vec<i32>, Vec<bool>))
    ensures
        r.0@ == passive_group_keys(t@),
        r.1@ == passive_sel(t@, hero),
{
    let mut keys: Vec<i32> = Vec::new();
    let mut sel: Vec<bool> = Vec::new();
    let mut i: usize = 0;
    while i < t.len()
        invariant
            i <= t@.len(),
            keys@.len() == i,
            sel@.len() == i,
            forall|j: int| 0 <= j < i ==> keys@[j] == t@[j].skill_group,
            forall|j: int| 0 <= j < i ==> sel@[j] == (t@[j].hero_id == hero),
        decreases t@.len() - i,
    {
        keys.push(t[i].skill_group);
        sel.push(t[i].hero_id == hero);
        i = i + 1;
    }
    assert(keys@ =~= passive_group_keys(t@));
    assert(sel@ =~= passive_sel(t@, hero));
    (keys, sel)
}

pub fn passive_level_columns(t: &Vec<SkillPassiveLevel>, hero: i32, group: i32) -> (r: (
    Vec<i32>,
    Vec<bool>,
))
    ensures
        r.0@ == passive_level_keys(t@),
        r.1@ == passive_group_sel(t@, hero, group as int),
{
    let mut keys: Vec<i32> = Vec::new();
    let mut sel: Vec<bool> = Vec::new();
    let mut i: usize = 0;
    while i < t.len()
        invariant
            i <= t@.len(),
            keys@.len() == i,
            sel@.len() == i,
            forall|j: int| 0 <= j < i ==> keys@[j] == t@[j].skill_level,
            forall|j: int|
                0 <= j < i ==> sel@[j] == (t@[j].hero_id == hero && t@[j].skill_group == group),
        decreases t@.len() - i,
    {
        keys.push(t[i].skill_level);
        sel.push(t[i].hero_id == hero && t[i].skill_group == group);
        i = i + 1;
    }
    assert(keys@ =~= passive_level_keys(t@));
    assert(sel@ =~= passive_group_sel(t@, hero, group as int));
    (keys, sel)
}

pub fn voice_columns(t: &Vec<CharacterVoice>, hero: i32) -> (r: (Vec<i32>, Vec<bool>))
    ensures
        r.0@ == voice_vals(t@),
        r.1@ == voice_sel(t@, hero),
{
    let mut vals: Vec<i32> = Vec::new();
    let mut sel: Vec<bool> = Vec::new();
    let mut i: usize = 0;
    while i < t.len()
        invariant
            i <= t@.len(),
            vals@.len() == i,
            sel@.len() == i,
            forall|j: int| 0 <= j < i ==> vals@[j] == t@[j].audio,
            forall|j: int|
                0 <= j < i ==> sel@[j] == (t@[j].hero_id == hero && (t@[j].voice_type == 9
                    || t@[j].voice_type == 11)),
        decreases t@.len() - i,
    {
        vals.push(t[i].audio);
        let ty = t[i].voice_type;
        sel.push(t[i].hero_id == hero && (ty == 9 || ty == 11));
        i = i + 1;
    }
    assert(vals@ =~= voice_vals(t@));
    assert(sel@ =~= voice_sel(t@, hero));
    (vals, sel)
}

// ---------------------------------------------------------------------------
// `#`-separated id lists
// ---------------------------------------------------------------------------

/// The first `#`-separated piece parsed as an `i32`, or `default` where it
/// does not parse (`s.split('#').next().and_then(parse).unwrap_or(default)`).
pub open spec fn first_piece_or(s: Seq<char>, default: i32) -> i32 {
    match spec_parse_i32(split_on(s, '#')[0]) {
        Some(v) => v,
        None => default,
    }
}

/// The pieces that parse as `i32`, in order; the others are skipped.
pub open spec fn parsed_pieces(p: Seq<Seq<char>>) -> Seq<i32>
    decreases p.len(),
{
    if p.len() == 0 {
        Seq::empty()
    } else {
        let rest = parsed_pieces(p.drop_last());
        match spec_parse_i32(p.last()) {
            Some(v) => rest.push(v),
            None => rest,
        }
    }
}

/// The ids of a `#`-separated list that parse.
pub open spec fn id_list(s: Seq<char>) -> Seq<i32> {
    parsed_pieces(split_on(s, '#'))
}

/// One talent cube `cube,direction,x,y`: exactly four pieces, each an `i32`.
pub open spec fn spec_cube(piece: Seq<char>) -> Option<(i32, i32, i32, i32)> {
    let p = split_on(piece, ',');
    if p.len() == 4 {
        match (spec_parse_i32(p[0]), spec_parse_i32(p[1]), spec_parse_i32(p[2]), spec_parse_i32(p[3])) {
            (Some(a), Some(b), Some(c), Some(d)) => Some((a, b, c, d)),
            _ => None,
        }
    } else {
        None
    }
}

/// The well-formed cubes of a list of pieces, in order.
pub open spec fn parsed_cubes(p: Seq<Seq<char>>) -> Seq<(i32, i32, i32, i32)>
    decreases p.len(),
{
    if p.len() == 0 {
        Seq::empty()
    } else {
        let rest = parsed_cubes(p.drop_last());
        match spec_cube(p.last()) {
            Some(c) => rest.push(c),
            None => rest,
        }
    }
}

/// The cubes of a talent scheme `cube,direction,x,y#...`.
pub open spec fn scheme_cubes(s: Seq<char>) -> Seq<(i32, i32, i32, i32)> {
    parsed_cubes(split_on(s, '#'))
}

/// The first piece of a `#`-separated list as an id, or `default`.
pub fn first_id_or(s: &str, default: i32) -> (r: i32)
    ensures
        r == first_piece_or(s@, default),
{
    let cs = chars_of(s);
    let parts = split_chars(cs.as_slice(), '#');
    proof {
        crate::text::lemma_split_on_nonempty(s@, '#');
    }
    assert(parts@[0]@ == split_on(s@, '#')[0]);
    match parse_i32(parts[0].as_slice()) {
        Some(v) => v,
        None => default,
    }
}

/// All ids of a `#`-separated list that parse, in order.
pub fn parse_id_list(s: &str) -> (r: Vec<i32>)
    ensures
        r@ == id_list(s@),
{
    let cs = chars_of(s);
    let parts = split_chars(cs.as_slice(), '#');
    let ghost p = split_on(s@, '#');
    let mut r: Vec<i32> = Vec::new();
    let mut i: usize = 0;
    while i < parts.len()
        invariant
            views(parts@) == p,
            i <= parts@.len(),
            r@ == parsed_pieces(p.take(i as int)),
        decreases parts@.len() - i,
    {
        proof {
            assert(p.take(i + 1).drop_last() =~= p.take(i as int));
            assert(p.take(i + 1).last() == parts@[i as int]@);
        }
        match parse_i32(parts[i].as_slice()) {
            Some(v) => r.push(v),
            None => {},
        }
        i = i + 1;
    }
    assert(p.take(parts@.len() as int) =~= p);
    r
}

fn parse_cube(piece: &[char]) -> (r: Option<(i32, i32, i32, i32)>)
    ensures
        r == spec_cube(piece@),
{
    let parts = split_chars(piece, ',');
    if parts.len() != 4 {
        return None;
    }
    assert(parts@[0]@ == split_on(piece@, ',')[0]);
    assert(parts@[1]@ == split_on(piece@, ',')[1]);
    assert(parts@[2]@ == split_on(piece@, ',')[2]);
    assert(parts@[3]@ == split_on(piece@, ',')[3]);
    let a = parse_i32(parts[0].as_slice());
    let b = parse_i32(parts[1].as_slice());
    let c = parse_i32(parts[2].as_slice());
    let d = parse_i32(parts[3].as_slice());
    match (a, b, c, d) {
        (Some(a), Some(b), Some(c), Some(d)) => Some((a, b, c, d)),
        _ => None,
    }
}

/// The well-formed cubes of a talent scheme, in order.
pub fn parse_scheme_cubes(s: &str) -> (r: Vec<(i32, i32, i32, i32)>)
    ensures
        r@ == scheme_cubes(s@),
{
    let cs = chars_of(s);
    let parts = split_chars(cs.as_slice(), '#');
    let ghost p = split_on(s@, '#');
    let mut r: Vec<(i32, i32, i32, i32)> = Vec::new();
    let mut i: usize = 0;
    while i < parts.len()
        invariant
            views(parts@) == p,
            i <= parts@.len(),
            r@ == parsed_cubes(p.take(i as int)),
        decreases parts@.len() - i,
    {
        proof {
            assert(p.take(i + 1).drop_last() =~= p.take(i as int));
            assert(p.take(i + 1).last() == parts@[i as int]@);
        }
        match parse_cube(parts[i].as_slice()) {
            Some(c) => r.push(c),
            None => {},
        }
        i = i + 1;
    }
    assert(p.take(parts@.len() as int) =~= p);
    r
}

} // verus!
