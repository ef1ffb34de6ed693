//! Records of the crafting database: recipes, categories and the values
//! that the queries read.
#![allow(non_snake_case)]
use vstd::prelude::*;

use crate::clothing::ClothingType;
use crate::codec::{Fixed, parse_int_within, read_int};
use crate::entries::FormatError;
use crate::text::{chars_of, eq_word_ci, lowers_to};
use vstd::string::StringExecFns;

verus! {

/// One step of a multi-step recipe.
#[derive(Clone, Debug, PartialEq)]
pub struct RecipeStep {
    pub id: Option<String>,
    pub mainBranch: Option<bool>,
    pub depth: Option<i32>,
    pub actorID: Option<String>,
    pub actorUses: Option<String>,
    pub hand: Option<bool>,
    pub uses: Option<String>,
    pub targetID: Option<String>,
    pub targetUses: Option<String>,
}

/// How an object is made: a flat list of ingredient identifiers, rows of
/// steps, or both.
#[derive(Clone, Debug, PartialEq)]
pub struct ObjectRecipe {
    pub steps: Option<Vec<Vec<RecipeStep>>>,
    pub ingredients: Option<Vec<String>>,
}

/// A biome an object spawns in, with its chance in millionths.
#[derive(Clone, Debug, PartialEq)]
pub struct Biome {
    pub id: Option<String>,
    pub spawnChance: Option<Fixed>,
}

#[derive(Clone, Debug, PartialEq)]
pub struct TransitionTimedData {
    pub targetID: Option<String>,
    pub newTargetID: Option<String>,
    pub decay: Option<String>,
}

#[derive(Clone, Debug, PartialEq)]
pub struct TransitionTowardData {
    pub actorID: Option<String>,
    pub targetID: Option<String>,
    pub newActorID: Option<String>,
    pub newTargetID: Option<String>,
    pub hand: Option<bool>,
    pub decay: Option<String>,
}

#[derive(Clone, Debug, PartialEq)]
pub struct TransitionAwayData {
    pub actorID: Option<String>,
    pub targetID: Option<String>,
    pub newActorID: Option<String>,
    pub newTargetID: Option<String>,
    pub newActorUses: Option<String>,
    pub newActorWeight: Option<Fixed>,
    pub targetRemains: Option<bool>,
    pub hand: Option<bool>,
    pub tool: Option<bool>,
    pub decay: Option<String>,
}

/// A node of an object's technology tree.
#[derive(Debug, PartialEq)]
pub struct TechTreeNode {
    pub id: Option<String>,
    pub nodes: Option<Vec<TechTreeNode>>,
}

/// How an object moves by itself; `Still` for objects that do not.
#[derive(Clone, Copy, Debug, PartialEq, Eq, Structural)]
pub enum MoveType {
    Still,
    Chase,
    Flee,
    Random,
    North,
    South,
    East,
    West,
    Find,
}

/// A JSON value as far as the crafting records' mixed-shape fields need it.
#[derive(Clone, Debug, PartialEq)]
pub enum JsonScalar {
    Null,
    /// A number that fits an `i64`.
    Integer(i64),
    /// Any other number.
    OtherNumber,
    Text(String),
    /// An array or an object.
    Compound,
}

impl MoveType {
    pub open spec fn code(self) -> int {
        match self {
            MoveType::Still => 0,
            MoveType::Chase => 1,
            MoveType::Flee => 2,
            MoveType::Random => 3,
            MoveType::North => 4,
            MoveType::South => 5,
            MoveType::East => 6,
            MoveType::West => 7,
            MoveType::Find => 8,
        }
    }

    /// The category with the numeric code `n`.
    pub open spec fn from_code(n: int) -> Option<MoveType> {
        if n == 0 {
            Some(MoveType::Still)
        } else if n == 1 {
            Some(MoveType::Chase)
        } else if n == 2 {
            Some(MoveType::Flee)
        } else if n == 3 {
            Some(MoveType::Random)
        } else if n == 4 {
            Some(MoveType::North)
        } else if n == 5 {
            Some(MoveType::South)
        } else if n == 6 {
            Some(MoveType::East)
        } else if n == 7 {
            Some(MoveType::West)
        } else if n == 8 {
            Some(MoveType::Find)
        } else {
            None
        }
    }

    /// The category whose lower-case name is `s` once ASCII capitals are
    /// lowered.
    pub open spec fn from_name(s: Seq<char>) -> Option<MoveType> {
        if lowers_to(s, "none"@) {
            Some(MoveType::Still)
        } else if lowers_to(s, "chase"@) {
            Some(MoveType::Chase)
        } else if lowers_to(s, "flee"@) {
            Some(MoveType::Flee)
        } else if lowers_to(s, "random"@) {
            Some(MoveType::Random)
        } else if lowers_to(s, "north"@) {
            Some(MoveType::North)
        } else if lowers_to(s, "south"@) {
            Some(MoveType::South)
        } else if lowers_to(s, "east"@) {
            Some(MoveType::East)
        } else if lowers_to(s, "west"@) {
            Some(MoveType::West)
        } else if lowers_to(s, "find"@) {
            Some(MoveType::Find)
        } else {
            None
        }
    }

    /// The English name.
    pub open spec fn name(self) -> Seq<char> {
        match self {
            MoveType::Still => "None"@,
            MoveType::Chase => "Chase"@,
            MoveType::Flee => "Flee"@,
            MoveType::Random => "Random"@,
            MoveType::North => "North"@,
            MoveType::South => "South"@,
            MoveType::East => "East"@,
            MoveType::West => "West"@,
            MoveType::Find => "Find"@,
        }
    }

    /// The numeric code, from 0 for `Still` to 8 for `Find`.
    pub fn to_i32(&self) -> (r: i32)
        ensures
            r as int == self.code(),
            Self::from_code(r as int) == Some(*self),
    {
        match self {
            MoveType::Still => 0,
            MoveType::Chase => 1,
            MoveType::Flee => 2,
            MoveType::Random => 3,
            MoveType::North => 4,
            MoveType::South => 5,
            MoveType::East => 6,
            MoveType::West => 7,
            MoveType::Find => 8,
        }
    }

    pub fn to_string(&self) -> (r: String)
        ensures
            r@ == self.name(),
    {
        let s = match self {
            MoveType::Still => "None",
            MoveType::Chase => "Chase",
            MoveType::Flee => "Flee",
            MoveType::Random => "Random",
            MoveType::North => "North",
            MoveType::South => "South",
            MoveType::East => "East",
            MoveType::West => "West",
            MoveType::Find => "Find",
        };
        String::from_str(s)
    }

    /// Every category, in code order.
    pub fn all() -> (r: Vec<MoveType>)
        ensures
            r@.len() == 9,
            forall|i: int| 0 <= i < 9 ==> (#[trigger] r@[i]).code() == i,
    {
        let mut v = Vec::new();
        v.push(MoveType::Still);
        v.push(MoveType::Chase);
        v.push(MoveType::Flee);
        v.push(MoveType::Random);
        v.push(MoveType::North);
        v.push(MoveType::South);
        v.push(MoveType::East);
        v.push(MoveType::West);
        v.push(MoveType::Find);
        v
    }

    fn from_code_exec(n: i64) -> (r: Option<MoveType>)
        ensures
            r == Self::from_code(n as int),
    {
        if n == 0 {
            Some(MoveType::Still)
        } else if n == 1 {
            Some(MoveType::Chase)
        } else if n == 2 {
            Some(MoveType::Flee)
        } else if n == 3 {
            Some(MoveType::Random)
        } else if n == 4 {
            Some(MoveType::North)
        } else if n == 5 {
            Some(MoveType::South)
        } else if n == 6 {
            Some(MoveType::East)
        } else if n == 7 {
            Some(MoveType::West)
        } else if n == 8 {
            Some(MoveType::Find)
        } else {
            None
        }
    }

    fn from_name_exec(s: &Vec<char>, lo: usize, hi: usize) -> (r: Option<MoveType>)
        requires
            lo <= hi <= s@.len(),
        ensures
            r == Self::from_name(s@.subrange(lo as int, hi as int)),
    {
        if eq_word_ci(s, lo, hi, "none") {
            Some(MoveType::Still)
        } else if eq_word_ci(s, lo, hi, "chase") {
            Some(MoveType::Chase)
        } else if eq_word_ci(s, lo, hi, "flee") {
            Some(MoveType::Flee)
        } else if eq_word_ci(s, lo, hi, "random") {
            Some(MoveType::Random)
        } else if eq_word_ci(s, lo, hi, "north") {
            Some(MoveType::North)
        } else if eq_word_ci(s, lo, hi, "south") {
            Some(MoveType::South)
        } else if eq_word_ci(s, lo, hi, "east") {
            Some(MoveType::East)
        } else if eq_word_ci(s, lo, hi, "west") {
            Some(MoveType::West)
        } else if eq_word_ci(s, lo, hi, "find") {
            Some(MoveType::Find)
        } else {
            None
        }
    }

    /// The category a command-line word names: its name or its code, in any
    /// ASCII case, with underscores and spaces ignored.
    pub fn from_str(text: &str) -> (r: Result<MoveType, FormatError>)
        ensures
            r is Ok <==> Self::from_word(squeeze(text@)) is Some,
            r matches Ok(t) ==> Self::from_word(squeeze(text@)) == Some(t),
    {
        let raw = chars_of(text);
        let s = squeeze_exec(&raw);
        match Self::from_name_exec(&s, 0, s.len()) {
            Some(t) => {
                assert(s@.subrange(0, s@.len() as int) =~= s@);
                Ok(t)
            },
            None => {
                assert(s@.subrange(0, s@.len() as int) =~= s@);
                if is_plain_digit(&s) {
                    let n = (s[0] as u32 - '0' as u32) as i64;
                    match Self::from_code_exec(n) {
                        Some(t) => Ok(t),
                        None => Err(FormatError::UnknownCode),
                    }
                } else {
                    Err(FormatError::UnknownCode)
                }
            },
        }
    }

    /// A command-line word: a name, or a single digit code.
    pub open spec fn from_word(s: Seq<char>) -> Option<MoveType> {
        match Self::from_name(s) {
            Some(t) => Some(t),
            None => if s.len() == 1 && crate::codec::is_digit(s[0]) {
                Self::from_code(crate::codec::digit_val(s[0]))
            } else {
                None
            },
        }
    }

    /// A JSON value of the `moveType` field: a code, a string holding a name
    /// in any ASCII case or a single-digit code, or `null` for `Still`.
    pub open spec fn from_json(v: JsonScalar) -> Option<MoveType> {
        match v {
            JsonScalar::Integer(n) => Self::from_code(n as int),
            JsonScalar::Text(s) => Self::from_word(s@),
            JsonScalar::Null => Some(MoveType::Still),
            _ => None,
        }
    }

    /// Reads the `moveType` field; any other value is
    /// [`FormatError::UnknownCode`].
    pub fn deserialize_move_type(v: &JsonScalar) -> (r: Result<MoveType, FormatError>)
        ensures
            r is Ok <==> Self::from_json(*v) is Some,
            r matches Ok(t) ==> Self::from_json(*v) == Some(t),
    {
        let found = match v {
            JsonScalar::Integer(n) => Self::from_code_exec(*n),
            JsonScalar::Text(s) => {
                let c = chars_of(s.as_str());
                assert(c@.subrange(0, c@.len() as int) =~= c@);
                match Self::from_name_exec(&c, 0, c.len()) {
                    Some(t) => Some(t),
                    None => if is_plain_digit(&c) {
                        Self::from_code_exec((c[0] as u32 - '0' as u32) as i64)
                    } else {
                        None
                    },
                }
            },
            JsonScalar::Null => Some(MoveType::Still),
            _ => None,
        };
        match found {
            Some(t) => Ok(t),
            None => Err(FormatError::UnknownCode),
        }
    }
}

fn is_plain_digit(s: &Vec<char>) -> (r: bool)
    ensures
        r == (s@.len() == 1 && crate::codec::is_digit(s@[0])),
{
    s.len() == 1 && '0' <= s[0] && s[0] <= '9'
}

/// `s` without underscores and spaces.
pub open spec fn squeeze(s: Seq<char>) -> Seq<char>
    decreases s.len(),
{
    if s.len() == 0 {
        Seq::empty()
    } else if s.last() == '_' || s.last() == ' ' {
        squeeze(s.drop_last())
    } else {
        squeeze(s.drop_last()).push(s.last())
    }
}

fn squeeze_exec(s: &Vec<char>) -> (r: Vec<char>)
    ensures
        r@ == squeeze(s@),
{
    let mut r: Vec<char> = Vec::new();
    let mut i: usize = 0;
    while i < s.len()
        invariant
            0 <= i <= s@.len(),
            r@ == squeeze(s@.take(i as int)),
        decreases s@.len() - i,
    {
        assert(s@.take(i + 1).drop_last() =~= s@.take(i as int));
        if s[i] != '_' && s[i] != ' ' {
            r.push(s[i]);
        }
        i = i + 1;
    }
    assert(s@.take(s@.len() as int) =~= s@);
    r
}

/// Reads the `moveDistance` field: an integer, a string spelling one, or
/// `null`.
pub open spec fn move_distance_of(v: JsonScalar) -> Option<Option<int>> {
    match v {
        JsonScalar::Integer(n) => if i32::MIN <= n <= i32::MAX {
            Some(Some(n as int))
        } else {
            None
        },
        JsonScalar::Text(s) => match parse_int_within(s@, i32::MIN as int, i32::MAX as int) {
            Some(x) => Some(Some(x)),
            None => None,
        },
        JsonScalar::Null => Some(None),
        _ => None,
    }
}

/// Reads the `moveDistance` field (see [`move_distance_of`]); any other
/// value is [`FormatError::Malformed`].
pub fn deserialize_move_distance(v: &JsonScalar) -> (r: Result<Option<i32>, FormatError>)
    ensures
        r is Ok <==> move_distance_of(*v) is Some,
        r matches Ok(d) ==> move_distance_of(*v) == Some(
            match d {
                Some(x) => Some(x as int),
                None => None,
            },
        ),
{
    match v {
        JsonScalar::Integer(n) => if i32::MIN as i64 <= *n && *n <= i32::MAX as i64 {
            Ok(Some(*n as i32))
        } else {
            Err(FormatError::Malformed)
        },
        JsonScalar::Text(s) => {
            let c = chars_of(s.as_str());
            assert(c@.subrange(0, c@.len() as int) =~= c@);
            match read_int(&c, 0, c.len(), i32::MIN as i64, i32::MAX as i64) {
                Some(x) => Ok(Some(x as i32)),
                None => Err(FormatError::Malformed),
            }
        },
        JsonScalar::Null => Ok(None),
        _ => Err(FormatError::Malformed),
    }
}

/// The default of an absent mixed-shape field.
pub fn GetNone<T>() -> (r: Option<T>)
    ensures
        r is None,
{
    None
}

/// One object of the crafting database.
#[derive(Debug, PartialEq)]
pub struct TwoTechObject {
    pub id: String,
    pub name: String,
    pub recipe: Option<ObjectRecipe>,
    pub speedMult: Option<Fixed>,
    pub version: Option<i32>,
    pub blocksWalking: Option<bool>,
    pub deadlyDistance: Option<i32>,
    pub biomes: Option<Vec<Biome>>,
    pub minPickupAge: Option<i32>,
    pub transitionsTimed: Option<Vec<TransitionTimedData>>,
    pub transitionsToward: Option<Vec<TransitionTowardData>>,
    pub craftable: Option<bool>,
    pub clothing: Option<ClothingType>,
    pub heatValue: Option<i32>,
    pub mapChance: Option<Fixed>,
    pub moveType: Option<MoveType>,
    pub numSlots: Option<i32>,
    pub numUses: Option<i32>,
    pub useDistance: Option<i32>,
    pub depth: Option<i32>,
    pub foodValue: Option<Vec<i32>>,
    pub insulation: Option<Fixed>,
    pub size: Option<Fixed>,
    pub sounds: Option<Vec<String>>,
    pub useChance: Option<Fixed>,
    pub techTree: Option<Vec<TechTreeNode>>,
    pub moveDistance: Option<i32>,
    pub transitionsAway: Option<Vec<TransitionAwayData>>,
    pub slotSize: Option<Fixed>,
}

impl TwoTechObject {
    /// A record with the given identity and no other field.
    pub fn new(id: String, name: String) -> (r: TwoTechObject)
        ensures
            r.id == id,
            r.name == name,
            r.recipe is None,
            r.speedMult is None,
            r.version is None,
            r.blocksWalking is None,
            r.deadlyDistance is None,
            r.biomes is None,
            r.minPickupAge is None,
            r.transitionsTimed is None,
            r.transitionsToward is None,
            r.craftable is None,
            r.clothing is None,
            r.heatValue is None,
            r.mapChance is None,
            r.moveType is None,
            r.numSlots is None,
            r.numUses is None,
            r.useDistance is None,
            r.depth is None,
            r.foodValue is None,
            r.insulation is None,
            r.size is None,
            r.sounds is None,
            r.useChance is None,
            r.techTree is None,
            r.moveDistance is None,
            r.transitionsAway is None,
            r.slotSize is None,
    {
        TwoTechObject {
            id,
            name,
            recipe: None,
            speedMult: None,
            version: None,
            blocksWalking: None,
            deadlyDistance: None,
            biomes: None,
            minPickupAge: None,
            transitionsTimed: None,
            transitionsToward: None,
            craftable: None,
            clothing: None,
            heatValue: None,
            mapChance: None,
            moveType: None,
            numSlots: None,
            numUses: None,
            useDistance: None,
            depth: None,
            foodValue: None,
            insulation: None,
            size: None,
            sounds: None,
            useChance: None,
            techTree: None,
            moveDistance: None,
            transitionsAway: None,
            slotSize: None,
        }
    }
}

} // verus!
