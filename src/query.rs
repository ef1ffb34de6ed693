//! Queries over the unified records: attribute filters, ingredient-set
//! filters over recipe trees, ordering by name, and the arguments that
//! describe them.
#![allow(non_snake_case)]
use vstd::prelude::*;
use vstd::multiset::Multiset;

use crate::catalog::{SharedGameObject, find_target_ingredient, search_finds};
use crate::clothing::ClothingType;
use crate::codec::{Fixed, parse_fixed, parse_int_within, pieces, read_fixed, read_int, split, split_ranges};
use crate::entries::FormatError;
use crate::text::{chars_of, eq_word, push_range, string_of};
use crate::twotech::MoveType;

verus! {

/// Identifiers that must all lie in a recipe tree.
#[derive(Debug)]
pub struct IngredientSet(pub Vec<String>);

impl IngredientSet {
    pub open spec fn ids(self) -> Seq<Seq<char>> {
        self.0@.map_values(|s: String| s@)
    }

    /// The comma-separated identifiers (or names) of `s`, as written.
    pub fn from_str(s: &str) -> (r: IngredientSet)
        ensures
            r.ids() == split(s@, ','),
    {
        let c = chars_of(s);
        assert(c@.subrange(0, c@.len() as int) =~= c@);
        let parts = split_ranges(&c, 0, c.len(), ',');
        let ghost want = pieces(c@, parts@);
        let mut v: Vec<String> = Vec::new();
        let mut k: usize = 0;
        while k < parts.len()
            invariant
                0 <= k <= parts@.len(),
                want == pieces(c@, parts@),
                crate::codec::ranges_within(parts@, 0, c@.len() as int),
                v@.len() == k,
                forall|i: int| 0 <= i < k ==> (#[trigger] v@[i])@ == want[i],
            decreases parts@.len() - k,
        {
            let (a, b) = parts[k];
            let mut w: Vec<char> = Vec::new();
            push_range(&mut w, &c, a, b);
            v.push(string_of(&w));
            k = k + 1;
        }
        let r = IngredientSet(v);
        assert(r.ids() =~= want);
        r
    }
}

/// An inclusive range of integers.
#[derive(Clone, Copy, Debug, PartialEq, Eq, Structural)]
pub struct I32Range {
    pub start: i32,
    pub end: i32,
}

/// An inclusive range of decimals.
#[derive(Clone, Copy, Debug, PartialEq, Eq, Structural)]
pub struct F32Range {
    pub start: Fixed,
    pub end: Fixed,
}

impl I32Range {
    pub open spec fn holds(self, x: int) -> bool {
        self.start <= x <= self.end
    }

    pub fn contains(&self, x: i64) -> (r: bool)
        ensures
            r == self.holds(x as int),
    {
        self.start as i64 <= x && x <= self.end as i64
    }

    /// The range that `start..end`, `start..`, `..end`, `..` or a single
    /// number spells; an open start is 0 and an open end is `i32::MAX`.
    pub open spec fn parse(s: Seq<char>) -> Option<I32Range> {
        let p = split_dots(s);
        if p.len() == 1 {
            match parse_int_within(p[0], i32::MIN as int, i32::MAX as int) {
                Some(x) => Some(I32Range { start: x as i32, end: x as i32 }),
                None => None,
            }
        } else if p.len() == 2 {
            let a = if p[0].len() == 0 {
                Some(0int)
            } else {
                parse_int_within(p[0], i32::MIN as int, i32::MAX as int)
            };
            let b = if p[1].len() == 0 {
                Some(i32::MAX as int)
            } else {
                parse_int_within(p[1], i32::MIN as int, i32::MAX as int)
            };
            match (a, b) {
                (Some(x), Some(y)) => Some(I32Range { start: x as i32, end: y as i32 }),
                _ => None,
            }
        } else {
            None
        }
    }

    pub fn from_str(text: &str) -> (r: Result<I32Range, FormatError>)
        ensures
            r is Ok <==> Self::parse(text@) is Some,
            r matches Ok(x) ==> Self::parse(text@) == Some(x),
    {
        let s = chars_of(text);
        assert(s@.subrange(0, s@.len() as int) =~= s@);
        let p = split_dots_ranges(&s, 0, s.len());
        if p.len() == 1 {
            assert(pieces(s@, p@)[0] == s@.subrange(p[0].0 as int, p[0].1 as int));
            match read_int(&s, p[0].0, p[0].1, i32::MIN as i64, i32::MAX as i64) {
                Some(x) => Ok(I32Range { start: x as i32, end: x as i32 }),
                None => Err(FormatError::Malformed),
            }
        } else if p.len() == 2 {
            assert(pieces(s@, p@)[0] == s@.subrange(p[0].0 as int, p[0].1 as int));
            assert(pieces(s@, p@)[1] == s@.subrange(p[1].0 as int, p[1].1 as int));
            let a = if p[0].0 == p[0].1 {
                Some(0i64)
            } else {
                read_int(&s, p[0].0, p[0].1, i32::MIN as i64, i32::MAX as i64)
            };
            let b = if p[1].0 == p[1].1 {
                Some(i32::MAX as i64)
            } else {
                read_int(&s, p[1].0, p[1].1, i32::MIN as i64, i32::MAX as i64)
            };
            match (a, b) {
                (Some(x), Some(y)) => Ok(I32Range { start: x as i32, end: y as i32 }),
                _ => Err(FormatError::Malformed),
            }
        } else {
            Err(FormatError::Malformed)
        }
    }
}

impl F32Range {
    pub open spec fn holds(self, x: Fixed) -> bool {
        self.start.micros <= x.micros <= self.end.micros
    }

    pub fn contains(&self, x: Fixed) -> (r: bool)
        ensures
            r == self.holds(x),
    {
        self.start.micros <= x.micros && x.micros <= self.end.micros
    }

    /// As [`I32Range::parse`], over decimals; an open start is 0 and an open
    /// end the largest decimal held.
    pub open spec fn parse(s: Seq<char>) -> Option<F32Range> {
        let p = split_dots(s);
        if p.len() == 1 {
            match parse_fixed(p[0]) {
                Some(x) => Some(F32Range { start: Fixed { micros: x as i64 }, end: Fixed { micros: x as i64 } }),
                None => None,
            }
        } else if p.len() == 2 {
            let a = if p[0].len() == 0 {
                Some(0int)
            } else {
                parse_fixed(p[0])
            };
            let b = if p[1].len() == 0 {
                Some(crate::codec::FIXED_LIMIT - 1)
            } else {
                parse_fixed(p[1])
            };
            match (a, b) {
                (Some(x), Some(y)) => Some(F32Range { start: Fixed { micros: x as i64 }, end: Fixed { micros: y as i64 } }),
                _ => None,
            }
        } else {
            None
        }
    }

    pub fn from_str(text: &str) -> (r: Result<F32Range, FormatError>)
        ensures
            r is Ok <==> Self::parse(text@) is Some,
            r matches Ok(x) ==> Self::parse(text@) == Some(x),
    {
        let s = chars_of(text);
        assert(s@.subrange(0, s@.len() as int) =~= s@);
        let p = split_dots_ranges(&s, 0, s.len());
        if p.len() == 1 {
            assert(pieces(s@, p@)[0] == s@.subrange(p[0].0 as int, p[0].1 as int));
            match read_fixed(&s, p[0].0, p[0].1) {
                Some(x) => Ok(F32Range { start: x, end: x }),
                None => Err(FormatError::Malformed),
            }
        } else if p.len() == 2 {
            assert(pieces(s@, p@)[0] == s@.subrange(p[0].0 as int, p[0].1 as int));
            assert(pieces(s@, p@)[1] == s@.subrange(p[1].0 as int, p[1].1 as int));
            let a = if p[0].0 == p[0].1 {
                Some(Fixed { micros: 0 })
            } else {
                read_fixed(&s, p[0].0, p[0].1)
            };
            let b = if p[1].0 == p[1].1 {
                Some(Fixed { micros: crate::codec::FIXED_LIMIT - 1 })
            } else {
                read_fixed(&s, p[1].0, p[1].1)
            };
            match (a, b) {
                (Some(x), Some(y)) => Ok(F32Range { start: x, end: y }),
                _ => Err(FormatError::Malformed),
            }
        } else {
            Err(FormatError::Malformed)
        }
    }
}

/// Pieces of `s` between occurrences of `..`, taken from the left without
/// overlap, as `str::split("..")` gives them.
pub open spec fn split_dots(s: Seq<char>) -> Seq<Seq<char>>
    decreases s.len(),
{
    if s.len() == 0 {
        seq![Seq::empty()]
    } else {
        let r = split_dots(s.drop_last());
        let cur = r.last();
        if s.last() == '.' && cur.len() > 0 && cur.last() == '.' {
            r.update(r.len() - 1, cur.drop_last()).push(Seq::empty())
        } else {
            r.update(r.len() - 1, cur.push(s.last()))
        }
    }
}

proof fn lemma_split_dots_len(s: Seq<char>)
    ensures
        split_dots(s).len() >= 1,
    decreases s.len(),
{
    if s.len() > 0 {
        lemma_split_dots_len(s.drop_last());
    }
}

/// Splits `s[lo..hi]` at each `..` (see [`split_dots`]).
pub fn split_dots_ranges(s: &Vec<char>, lo: usize, hi: usize) -> (r: Vec<(usize, usize)>)
    requires
        lo <= hi <= s@.len(),
    ensures
        crate::codec::ranges_within(r@, lo as int, hi as int),
        pieces(s@, r@) == split_dots(s@.subrange(lo as int, hi as int)),
{
    let mut r: Vec<(usize, usize)> = Vec::new();
    let mut start = lo;
    let mut i = lo;
    proof {
        assert(s@.subrange(lo as int, lo as int) =~= Seq::<char>::empty());
        assert(pieces(s@, r@).push(s@.subrange(start as int, i as int)) =~= seq![Seq::<char>::empty()]);
    }
    while i < hi
        invariant
            lo <= start <= i <= hi <= s@.len(),
            crate::codec::ranges_within(r@, lo as int, i as int),
            split_dots(s@.subrange(lo as int, i as int)) == pieces(s@, r@).push(
                s@.subrange(start as int, i as int),
            ),
        decreases hi - i,
    {
        let ghost t = s@.subrange(lo as int, i + 1);
        let ghost cur = s@.subrange(start as int, i as int);
        proof {
            assert(t.drop_last() =~= s@.subrange(lo as int, i as int));
            assert(t.last() == s@[i as int]);
            lemma_split_dots_len(s@.subrange(lo as int, i as int));
        }
        if s[i] == '.' && i > start && s[i - 1] == '.' {
            let ghost before = pieces(s@, r@);
            r.push((start, i - 1));
            proof {
                assert(cur.last() == s@[i - 1]);
                assert(cur.drop_last() =~= s@.subrange(start as int, i - 1));
                assert(pieces(s@, r@) =~= before.push(s@.subrange(start as int, i - 1)));
                assert(s@.subrange(i + 1, i + 1) =~= Seq::<char>::empty());
                let q = before.push(cur);
                assert(q.update(q.len() - 1, cur.drop_last()).push(Seq::empty()) =~= pieces(s@, r@).push(
                    s@.subrange(i + 1, i + 1),
                ));
            }
            start = i + 1;
        } else {
            proof {
                if i > start {
                    assert(cur.last() == s@[i - 1]);
                }
                assert(cur.push(s@[i as int]) =~= s@.subrange(start as int, i + 1));
                let p = pieces(s@, r@).push(cur);
                assert(p.update(p.len() - 1, s@.subrange(start as int, i + 1)) =~= pieces(
                    s@,
                    r@,
                ).push(s@.subrange(start as int, i + 1)));
            }
        }
        i = i + 1;
    }
    let ghost before = pieces(s@, r@);
    r.push((start, hi));
    assert(pieces(s@, r@) =~= before.push(s@.subrange(start as int, hi as int)));
    r
}

/// Sum of a list of integers.
pub open spec fn sum(s: Seq<int>) -> int
    decreases s.len(),
{
    if s.len() == 0 {
        0
    } else {
        sum(s.drop_last()) + s.last()
    }
}

pub fn food_sum(v: &Vec<i32>) -> (r: i128)
    ensures
        r as int == sum(v@.map_values(|x: i32| x as int)),
{
    let ghost m = v@.map_values(|x: i32| x as int);
    let mut acc: i128 = 0;
    let mut i: usize = 0;
    while i < v.len()
        invariant
            0 <= i <= v@.len(),
            m == v@.map_values(|x: i32| x as int),
            acc as int == sum(m.take(i as int)),
            -0x8000_0000 * (i as int) <= acc as int <= 0x8000_0000 * (i as int),
        decreases v@.len() - i,
    {
        assert(m.take(i + 1).drop_last() =~= m.take(i as int));
        assert(i < 0x1_0000_0000_0000_0000);
        assert(-0x8000_0000 * (i as int) - 0x8000_0000 >= -0x8000_0000 * 0x1_0000_0000_0000_0000) by (nonlinear_arith)
            requires i < 0x1_0000_0000_0000_0000;
        assert(0x8000_0000 * (i as int) + 0x8000_0000 <= 0x8000_0000 * 0x1_0000_0000_0000_0000) by (nonlinear_arith)
            requires i < 0x1_0000_0000_0000_0000;
        acc = acc + v[i] as i128;
        i = i + 1;
    }
    assert(m.take(v@.len() as int) =~= m);
    acc
}

/// Whether `w` occurs in `s`.
pub open spec fn occurs_in(s: Seq<char>, w: Seq<char>) -> bool {
    exists|i: int| 0 <= i && i + w.len() <= s.len() && #[trigger] s.subrange(i, i + w.len()) == w
}

fn contains_removed(s: &Vec<char>) -> (r: bool)
    ensures
        r == occurs_in(s@, "removed"@),
{
    proof {
        reveal_strlit("removed");
    }
    let n: usize = 7;
    if s.len() < n {
        return false;
    }
    let last = s.len() - n;
    let mut i: usize = 0;
    while i <= last
        invariant
            n == "removed"@.len(),
            n == 7,
            last + n == s@.len(),
            last + n <= usize::MAX,
            0 <= i <= last + 1,
            forall|j: int| 0 <= j < i && j + n <= s@.len() ==> #[trigger] s@.subrange(j, j + n) != "removed"@,
        decreases last + 1 - i,
    {
        if eq_word(s, i, i + n, "removed") {
            return true;
        }
        i = i + 1;
    }
    false
}

/// The attribute filters of a query. Empty lists and absent values match
/// everything.
#[derive(Debug)]
pub struct Query {
    pub clothing: Vec<ClothingType>,
    pub move_types: Vec<MoveType>,
    pub min_pickup_age: i32,
    pub num_slots: I32Range,
    pub slot_size: Option<F32Range>,
    pub is_food: Option<bool>,
    pub total_food_value: Option<I32Range>,
    pub immediate_food_value: Option<I32Range>,
    pub bonus_food_value: Option<I32Range>,
    pub container_slot_type: Option<Vec<i32>>,
}

pub open spec fn food_ok(range: Option<I32Range>, food: Option<Vec<i32>>) -> bool {
    match range {
        None => true,
        Some(r) => match food {
            Some(f) => r.holds(sum(f@.map_values(|x: i32| x as int))),
            None => false,
        },
    }
}

impl Query {
    /// Whether a record passes every filter: it is craftable, of a listed
    /// clothing category and movement (when lists are given), at least the
    /// minimum pickup age (0 when absent), with a slot count (0 when absent)
    /// and slot size in range, with food as asked, its food sum in each given
    /// range, of a listed container style, and not named as removed.
    pub open spec fn passes(self, o: SharedGameObject) -> bool {
        let t = o.twotech_data;
        &&& t.craftable == Some(true)
        &&& (self.clothing@.len() == 0 || (t.clothing matches Some(c) && self.clothing@.contains(c)))
        &&& (self.move_types@.len() == 0 || (t.moveType matches Some(m) && self.move_types@.contains(m)))
        &&& (match t.minPickupAge {
            Some(a) => a,
            None => 0,
        }) >= self.min_pickup_age
        &&& self.num_slots.holds(
            match t.numSlots {
                Some(n) => n as int,
                None => 0,
            },
        )
        &&& (match self.slot_size {
            None => true,
            Some(r) => t.slotSize matches Some(z) && r.holds(z),
        })
        &&& (match self.is_food {
            None => true,
            Some(want) => (t.foodValue matches Some(f) && f@.len() > 0) == want,
        })
        &&& food_ok(self.total_food_value, t.foodValue)
        &&& food_ok(self.immediate_food_value, t.foodValue)
        &&& food_ok(self.bonus_food_value, t.foodValue)
        &&& (match self.container_slot_type {
            None => true,
            Some(styles) => o.one_life_game_data.slotStyle matches Some(s) && styles@.contains(s),
        })
        &&& !occurs_in(t.name@, "removed"@)
    }

    /// Whether `o` passes every filter (see [`Query::passes`]).
    pub fn matches(&self, o: &SharedGameObject) -> (r: bool)
        ensures
            r == self.passes(*o),
    {
        let t = &o.twotech_data;
        let craftable = match t.craftable {
            Some(c) => c,
            None => false,
        };
        let clothing_ok = self.clothing.len() == 0 || match t.clothing {
            Some(c) => contains_clothing(&self.clothing, c),
            None => false,
        };
        let move_ok = self.move_types.len() == 0 || match t.moveType {
            Some(m) => contains_move(&self.move_types, m),
            None => false,
        };
        let age = match t.minPickupAge {
            Some(a) => a,
            None => 0,
        };
        let slots = match t.numSlots {
            Some(n) => n,
            None => 0,
        };
        let size_ok = match self.slot_size {
            None => true,
            Some(r) => match t.slotSize {
                Some(z) => r.contains(z),
                None => false,
            },
        };
        let food_present = match &t.foodValue {
            Some(f) => f.len() > 0,
            None => false,
        };
        let is_food_ok = match self.is_food {
            None => true,
            Some(want) => food_present == want,
        };
        let style_ok = match &self.container_slot_type {
            None => true,
            Some(styles) => match o.one_life_game_data.slotStyle {
                Some(s) => contains_i32(styles, s),
                None => false,
            },
        };
        let name = chars_of(t.name.as_str());
        craftable && clothing_ok && move_ok && age >= self.min_pickup_age && self.num_slots.contains(
            slots as i64,
        ) && size_ok && is_food_ok && food_in(self.total_food_value, &t.foodValue) && food_in(
            self.immediate_food_value,
            &t.foodValue,
        ) && food_in(self.bonus_food_value, &t.foodValue) && style_ok && !contains_removed(&name)
    }
}

fn food_in(range: Option<I32Range>, food: &Option<Vec<i32>>) -> (r: bool)
    ensures
        r == food_ok(range, *food),
{
    match range {
        None => true,
        Some(rg) => match food {
            Some(f) => {
                let total = food_sum(f);
                rg.start as i128 <= total && total <= rg.end as i128
            },
            None => false,
        },
    }
}

fn contains_clothing(v: &Vec<ClothingType>, c: ClothingType) -> (r: bool)
    ensures
        r == v@.contains(c),
{
    let mut i: usize = 0;
    while i < v.len()
        invariant
            0 <= i <= v@.len(),
            forall|j: int| 0 <= j < i ==> v@[j] != c,
        decreases v@.len() - i,
    {
        if v[i] == c {
            assert(v@[i as int] == c);
            return true;
        }
        i = i + 1;
    }
    false
}

fn contains_move(v: &Vec<MoveType>, m: MoveType) -> (r: bool)
    ensures
        r == v@.contains(m),
{
    let mut i: usize = 0;
    while i < v.len()
        invariant
            0 <= i <= v@.len(),
            forall|j: int| 0 <= j < i ==> v@[j] != m,
        decreases v@.len() - i,
    {
        if v[i] == m {
            assert(v@[i as int] == m);
            return true;
        }
        i = i + 1;
    }
    false
}

fn contains_i32(v: &Vec<i32>, x: i32) -> (r: bool)
    ensures
        r == v@.contains(x),
{
    let mut i: usize = 0;
    while i < v.len()
        invariant
            0 <= i <= v@.len(),
            forall|j: int| 0 <= j < i ==> v@[j] != x,
        decreases v@.len() - i,
    {
        if v[i] == x {
            assert(v@[i as int] == x);
            return true;
        }
        i = i + 1;
    }
    false
}

/// Identifiers as sequences.
pub open spec fn ids_view(v: Seq<String>) -> Seq<Seq<char>> {
    v.map_values(|s: String| s@)
}

pub open spec fn sets_view(sets: Seq<Vec<String>>) -> Seq<Seq<Seq<char>>> {
    sets.map_values(|v: Vec<String>| ids_view(v@))
}

/// Every identifier of `set` lies in the recipe tree of `root`.
pub open spec fn set_reached(
    db: Seq<(String, SharedGameObject)>,
    root: SharedGameObject,
    set: Seq<Seq<char>>,
) -> bool {
    forall|i: int| 0 <= i < set.len() ==> search_finds(db, root, #[trigger] set[i])
}

/// Some set of `sets` lies wholly in the recipe tree of `root`.
pub open spec fn any_set_reached(
    db: Seq<(String, SharedGameObject)>,
    root: SharedGameObject,
    sets: Seq<Seq<Seq<char>>>,
) -> bool {
    exists|s: int| 0 <= s < sets.len() && set_reached(db, root, #[trigger] sets[s])
}

/// Whether every identifier of `set` lies in the recipe tree of `obj`.
pub fn contains_all(
    obj: &SharedGameObject,
    set: &Vec<String>,
    db: &Vec<(String, SharedGameObject)>,
) -> (r: bool)
    ensures
        r == set_reached(db@, *obj, ids_view(set@)),
{
    let mut i: usize = 0;
    while i < set.len()
        invariant
            0 <= i <= set@.len(),
            forall|k: int| 0 <= k < i ==> search_finds(db@, *obj, #[trigger] ids_view(set@)[k]),
        decreases set@.len() - i,
    {
        if find_target_ingredient(obj, &set[i], db).is_none() {
            assert(!search_finds(db@, *obj, ids_view(set@)[i as int]));
            return false;
        }
        i = i + 1;
    }
    true
}

/// Whether some set of identifiers lies wholly in the recipe tree of `obj`:
/// the sets are alternatives, the members of a set are all required.
pub fn contains_any_set(
    obj: &SharedGameObject,
    sets: &Vec<Vec<String>>,
    db: &Vec<(String, SharedGameObject)>,
) -> (r: bool)
    ensures
        r == any_set_reached(db@, *obj, sets_view(sets@)),
{
    let mut i: usize = 0;
    while i < sets.len()
        invariant
            0 <= i <= sets@.len(),
            forall|k: int| 0 <= k < i ==> !set_reached(db@, *obj, #[trigger] sets_view(sets@)[k]),
        decreases sets@.len() - i,
    {
        if contains_all(obj, &sets[i], db) {
            assert(set_reached(db@, *obj, sets_view(sets@)[i as int]));
            return true;
        }
        i = i + 1;
    }
    false
}

/// The first entry of `db`, from index `from` on, whose record is named
/// `name`.
pub open spec fn first_with_name(db: Seq<(String, SharedGameObject)>, name: Seq<char>, from: int) -> Option<int>
    decreases db.len() - from,
{
    if from < 0 || from >= db.len() {
        None
    } else if db[from].1.twotech_data.name@ == name {
        Some(from)
    } else {
        first_with_name(db, name, from + 1)
    }
}

/// The identifiers of the first records bearing each name; names that no
/// record bears are dropped.
pub open spec fn resolve_ids(db: Seq<(String, SharedGameObject)>, names: Seq<Seq<char>>) -> Seq<Seq<char>>
    decreases names.len(),
{
    if names.len() == 0 {
        Seq::empty()
    } else {
        let r = resolve_ids(db, names.drop_last());
        match first_with_name(db, names.last(), 0) {
            Some(j) => r.push(db[j].1.twotech_data.id@),
            None => r,
        }
    }
}

fn find_by_name(db: &Vec<(String, SharedGameObject)>, name: &String) -> (r: Option<usize>)
    ensures
        r matches Some(j) ==> j < db@.len() && first_with_name(db@, name@, 0) == Some(j as int),
        r is None ==> first_with_name(db@, name@, 0) is None,
{
    let mut i: usize = 0;
    while i < db.len()
        invariant
            0 <= i <= db@.len(),
            first_with_name(db@, name@, 0) == first_with_name(db@, name@, i as int),
        decreases db@.len() - i,
    {
        if db[i].1.twotech_data.name == *name {
            return Some(i);
        }
        i = i + 1;
    }
    None
}

/// Turns each set of object names into the identifiers of the first records
/// bearing them (see [`resolve_ids`]).
pub fn resolve_ingredient_names(
    sets: &Vec<IngredientSet>,
    db: &Vec<(String, SharedGameObject)>,
) -> (r: Vec<Vec<String>>)
    ensures
        r@.len() == sets@.len(),
        forall|s: int| 0 <= s < sets@.len() ==> ids_view((#[trigger] r@[s])@) == resolve_ids(db@, sets@[s].ids()),
{
    let mut r: Vec<Vec<String>> = Vec::new();
    let mut s: usize = 0;
    while s < sets.len()
        invariant
            0 <= s <= sets@.len(),
            r@.len() == s,
            forall|t: int| 0 <= t < s ==> ids_view((#[trigger] r@[t])@) == resolve_ids(db@, sets@[t].ids()),
        decreases sets@.len() - s,
    {
        let names = &sets[s].0;
        let mut ids: Vec<String> = Vec::new();
        let mut k: usize = 0;
        while k < names.len()
            invariant
                0 <= s < sets@.len(),
                *names == sets@[s as int].0,
                0 <= k <= names@.len(),
                ids_view(ids@) == resolve_ids(db@, ids_view(names@).take(k as int)),
            decreases names@.len() - k,
        {
            let ghost pre = ids_view(names@).take(k as int);
            assert(ids_view(names@).take(k + 1).drop_last() =~= pre);
            assert(ids_view(names@).take(k + 1).last() == names@[k as int]@);
            match find_by_name(db, &names[k]) {
                Some(j) => {
                    let ghost before = ids@;
                    ids.push(db[j].1.twotech_data.id.clone());
                    assert(ids_view(ids@) =~= ids_view(before).push(db@[j as int].1.twotech_data.id@));
                },
                None => {},
            }
            k = k + 1;
        }
        assert(ids_view(names@).take(names@.len() as int) =~= sets@[s as int].ids());
        r.push(ids);
        s = s + 1;
    }
    r
}

/// Lexicographic order of names by character.
pub open spec fn name_le(a: Seq<char>, b: Seq<char>) -> bool
    decreases a.len(),
{
    if a.len() == 0 {
        true
    } else if b.len() == 0 {
        false
    } else if a[0] != b[0] {
        a[0] < b[0]
    } else {
        name_le(a.drop_first(), b.drop_first())
    }
}

proof fn lemma_name_le_total(a: Seq<char>, b: Seq<char>)
    ensures
        name_le(a, b) || name_le(b, a),
    decreases a.len(),
{
    if a.len() > 0 && b.len() > 0 && a[0] == b[0] {
        lemma_name_le_total(a.drop_first(), b.drop_first());
    }
}

fn name_le_exec(a: &Vec<char>, b: &Vec<char>) -> (r: bool)
    ensures
        r == name_le(a@, b@),
{
    let mut i: usize = 0;
    assert(a@.subrange(0, a@.len() as int) =~= a@);
    assert(b@.subrange(0, b@.len() as int) =~= b@);
    while i < a.len() && i < b.len() && a[i] == b[i]
        invariant
            0 <= i <= a@.len(),
            i <= b@.len(),
            name_le(a@, b@) == name_le(a@.subrange(i as int, a@.len() as int), b@.subrange(i as int, b@.len() as int)),
        decreases a@.len() - i,
    {
        proof {
            let x = a@.subrange(i as int, a@.len() as int);
            let y = b@.subrange(i as int, b@.len() as int);
            assert(x.drop_first() =~= a@.subrange(i + 1, a@.len() as int));
            assert(y.drop_first() =~= b@.subrange(i + 1, b@.len() as int));
            assert(x[0] == a@[i as int]);
            assert(y[0] == b@[i as int]);
        }
        i = i + 1;
    }
    let ghost x = a@.subrange(i as int, a@.len() as int);
    let ghost y = b@.subrange(i as int, b@.len() as int);
    if i == a.len() {
        true
    } else if i == b.len() {
        false
    } else {
        assert(x[0] == a@[i as int]);
        assert(y[0] == b@[i as int]);
        a[i] < b[i]
    }
}

/// Names in order: each no later than the next.
pub open spec fn sorted_by_name(v: Seq<SharedGameObject>) -> bool {
    forall|i: int| 0 <= i < v.len() - 1 ==> name_le(
        (#[trigger] v[i]).twotech_data.name@,
        v[i + 1].twotech_data.name@,
    )
}

fn insert_sorted(r: &mut Vec<SharedGameObject>, names: &mut Vec<Vec<char>>, x: SharedGameObject)
    requires
        old(names)@.len() == old(r)@.len(),
        forall|i: int| 0 <= i < old(r)@.len() ==> (#[trigger] old(names)@[i])@ == old(r)@[i].twotech_data.name@,
        sorted_by_name(old(r)@),
    ensures
        final(names)@.len() == final(r)@.len(),
        forall|i: int| 0 <= i < final(r)@.len() ==> (#[trigger] final(names)@[i])@ == final(r)@[i].twotech_data.name@,
        sorted_by_name(final(r)@),
        final(r)@.to_multiset() == old(r)@.to_multiset().insert(x),
{
    let xn = chars_of(x.twotech_data.name.as_str());
    let mut p: usize = 0;
    while p < r.len() && name_le_exec(&names[p], &xn)
        invariant
            0 <= p <= r@.len(),
            names@.len() == r@.len(),
            forall|i: int| 0 <= i < r@.len() ==> (#[trigger] names@[i])@ == r@[i].twotech_data.name@,
            forall|i: int| 0 <= i < p ==> name_le((#[trigger] r@[i]).twotech_data.name@, xn@),
        decreases r@.len() - p,
    {
        p = p + 1;
    }
    proof {
        if p < r@.len() {
            lemma_name_le_total(r@[p as int].twotech_data.name@, xn@);
        }
    }
    let ghost before_r = r@;
    let ghost before_names = names@;
    r.insert(p, x);
    names.insert(p, xn);
    proof {
        vstd::seq_lib::to_multiset_insert(before_r, p as int, x);
        assert forall|i: int| 0 <= i < r@.len() - 1 implies name_le(
            (#[trigger] r@[i]).twotech_data.name@,
            r@[i + 1].twotech_data.name@,
        ) by {
            if i + 1 < p {
                assert(r@[i] == before_r[i]);
                assert(r@[i + 1] == before_r[i + 1]);
            } else if i + 1 == p {
                assert(r@[i] == before_r[i]);
            } else if i == p {
                assert(r@[i + 1] == before_r[i]);
            } else {
                assert(r@[i] == before_r[i - 1]);
                assert(r@[i + 1] == before_r[i]);
            }
        }
        assert forall|i: int| 0 <= i < r@.len() implies (#[trigger] names@[i])@ == r@[i].twotech_data.name@ by {
            if i < p {
                assert(names@[i] == before_names[i]);
                assert(r@[i] == before_r[i]);
            } else if i > p {
                assert(names@[i] == before_names[i - 1]);
                assert(r@[i] == before_r[i - 1]);
            }
        }
    }
}

/// The records ordered by name.
pub fn sort_by_name(v: Vec<SharedGameObject>) -> (r: Vec<SharedGameObject>)
    ensures
        sorted_by_name(r@),
        r@.to_multiset() == v@.to_multiset(),
{
    broadcast use vstd::seq_lib::group_to_multiset_ensures;
    let ghost orig = v@;
    let mut v = v;
    let mut r: Vec<SharedGameObject> = Vec::new();
    let mut names: Vec<Vec<char>> = Vec::new();
    while v.len() > 0
        invariant
            v@.len() <= orig.len(),
            v@ == orig.take(v@.len() as int),
            names@.len() == r@.len(),
            forall|i: int| 0 <= i < r@.len() ==> (#[trigger] names@[i])@ == r@[i].twotech_data.name@,
            sorted_by_name(r@),
            r@.to_multiset().add(v@.to_multiset()) == orig.to_multiset(),
        decreases v@.len(),
    {
        let ghost before_v = v@;
        let ghost before_r = r@;
        let x = match v.pop() {
            Some(x) => x,
            None => return r,
        };
        proof {
            assert(before_v =~= v@.push(x));
            assert(v@ =~= before_v.drop_last());
            assert(before_v == orig.take(before_v.len() as int));
            assert(v@ =~= orig.take(v@.len() as int));
            vstd::seq_lib::to_multiset_build(v@, x);
        }
        insert_sorted(&mut r, &mut names, x);
        proof {
            assert(r@.to_multiset().add(v@.to_multiset()) =~= before_r.to_multiset().add(before_v.to_multiset()));
        }
    }
    proof {
        assert(v@.to_multiset() =~= Multiset::empty());
        assert(r@.to_multiset().add(Multiset::empty()) =~= r@.to_multiset());
    }
    r
}

} // verus!
