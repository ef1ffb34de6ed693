//! One-line composite values of the object format.
#![allow(non_snake_case)]
use vstd::prelude::*;

use crate::codec::{
    Fixed, fixed_str, free_of, int_str, lemma_parse_int_str, lemma_split_free, lemma_split_len,
    lemma_split_sep, parse_fixed, parse_int_within, pieces, push_fixed, push_int, read_fixed,
    read_int, split, split_ranges,
};
use crate::entries::{
    FormatError, Part, entry_name, entry_str, entry_value, flag_of, flag_str, head_range, head_value,
    last_named, lemma_entry, lemma_entry_free, lemma_fixed_round, lemma_flag_numeric,
    lemma_int_numeric, lemma_numeric_free, named_fixed, named_flag, named_int, opt_fixed, opt_flag, opt_int, push_flag, read_flag,
};
use crate::text::{chars_of, push_str, string_of};

verus! {

/// `sep` and `name=v` when the entry is present, nothing otherwise.
pub open spec fn opt_entry(sep: char, name: Seq<char>, v: Option<Seq<char>>) -> Seq<char> {
    match v {
        Some(t) => seq![sep] + entry_str(name, t),
        None => Seq::empty(),
    }
}

pub open spec fn opt_fixed_str(v: Option<Fixed>) -> Option<Seq<char>> {
    match v {
        Some(f) => Some(fixed_str(f.micros as int)),
        None => None,
    }
}

pub open spec fn opt_int_str(v: Option<i32>) -> Option<Seq<char>> {
    match v {
        Some(x) => Some(int_str(x as int)),
        None => None,
    }
}

pub open spec fn opt_flag_str(v: Option<bool>) -> Option<Seq<char>> {
    match v {
        Some(b) => Some(flag_str(b)),
        None => None,
    }
}

pub open spec fn opt_fixed_wf(v: Option<Fixed>) -> bool {
    v matches Some(f) ==> f.wf()
}

pub open spec fn widen32(v: Option<i32>) -> Option<int> {
    match v {
        Some(x) => Some(x as int),
        None => None,
    }
}

pub open spec fn narrow32(v: Option<int>) -> Option<i32> {
    match v {
        Some(x) => Some(x as i32),
        None => None,
    }
}

/// A line with an optional entry appended splits into the pieces of the line
/// and, when present, that entry.
pub proof fn lemma_append_opt(prefix: Seq<char>, sep: char, name: Seq<char>, v: Option<Seq<char>>)
    requires
        sep != '=',
        free_of(name, sep),
        free_of(name, '='),
        v matches Some(t) ==> free_of(t, sep) && free_of(t, '='),
    ensures
        split(prefix + opt_entry(sep, name, v), sep) == match v {
            Some(t) => split(prefix, sep).push(entry_str(name, t)),
            None => split(prefix, sep),
        },
        v matches Some(t) ==> entry_name(entry_str(name, t)) == name && entry_value(
            entry_str(name, t),
        ) == Some(t),
        forall|n: Seq<char>|
            #[trigger] last_named(split(prefix + opt_entry(sep, name, v), sep), n) == match v {
                Some(t) => if n == name {
                    Some(Some(t))
                } else {
                    last_named(split(prefix, sep), n)
                },
                None => last_named(split(prefix, sep), n),
            },
{
    lemma_split_len(prefix, sep);
    match v {
        Some(t) => {
            lemma_entry(name, t);
            lemma_entry_free(name, t, sep);
            lemma_split_sep(prefix, entry_str(name, t), sep);
            assert(prefix + opt_entry(sep, name, v) =~= prefix + seq![sep] + entry_str(name, t));
            assert(split(prefix, sep).push(entry_str(name, t)).drop_last() =~= split(prefix, sep));
        },
        None => {
            assert(prefix + opt_entry(sep, name, v) =~= prefix);
        },
    }
}

/// The head `name=v` of a line splits to itself.
pub proof fn lemma_head(name: Seq<char>, v: Seq<char>, sep: char)
    requires
        sep != '=',
        free_of(name, sep),
        free_of(name, '='),
        free_of(v, sep),
        free_of(v, '='),
    ensures
        split(entry_str(name, v), sep) == seq![entry_str(name, v)],
        head_value(seq![entry_str(name, v)]) == Some(v),
        forall|n: Seq<char>| #[trigger] last_named(split(entry_str(name, v), sep), n) is None,
{
    lemma_entry(name, v);
    lemma_entry_free(name, v, sep);
    lemma_split_free(entry_str(name, v), sep);
}

pub proof fn lemma_fixed_text(m: int)
    requires
        -crate::codec::FIXED_LIMIT < m < crate::codec::FIXED_LIMIT,
    ensures
        parse_fixed(fixed_str(m)) == Some(m),
        free_of(fixed_str(m), ','),
        free_of(fixed_str(m), '='),
        free_of(fixed_str(m), '#'),
        free_of(fixed_str(m), ':'),
{
    lemma_fixed_round(m);
    lemma_numeric_free(fixed_str(m), ',');
    lemma_numeric_free(fixed_str(m), '=');
    lemma_numeric_free(fixed_str(m), '#');
    lemma_numeric_free(fixed_str(m), ':');
}

pub proof fn lemma_int_text(x: int)
    ensures
        crate::codec::parse_int(int_str(x)) == Some(x),
        free_of(int_str(x), ','),
        free_of(int_str(x), '='),
        free_of(int_str(x), '#'),
        free_of(int_str(x), ':'),
{
    lemma_parse_int_str(x);
    lemma_int_numeric(x);
    lemma_numeric_free(int_str(x), ',');
    lemma_numeric_free(int_str(x), '=');
    lemma_numeric_free(int_str(x), '#');
    lemma_numeric_free(int_str(x), ':');
}

pub proof fn lemma_flag_text(b: bool)
    ensures
        flag_of(flag_str(b)) == Some(b),
        free_of(flag_str(b), ','),
        free_of(flag_str(b), '='),
        free_of(flag_str(b), '#'),
{
    lemma_flag_numeric(b);
    lemma_numeric_free(flag_str(b), ',');
    lemma_numeric_free(flag_str(b), '=');
    lemma_numeric_free(flag_str(b), '#');
}

/// Appends `sep` and `name=` when `present`.
pub fn push_entry_start(out: &mut Vec<char>, sep: char, name: &str)
    ensures
        final(out)@ == old(out)@ + seq![sep] + name@ + seq!['='],
{
    out.push(sep);
    push_str(out, name);
    out.push('=');
    assert(final(out)@ =~= old(out)@ + seq![sep] + name@ + seq!['=']);
}

pub fn push_opt_fixed(out: &mut Vec<char>, sep: char, name: &str, v: Option<Fixed>)
    requires
        opt_fixed_wf(v),
    ensures
        final(out)@ == old(out)@ + opt_entry(sep, name@, opt_fixed_str(v)),
{
    match v {
        Some(f) => {
            push_entry_start(out, sep, name);
            push_fixed(out, f);
            assert(final(out)@ =~= old(out)@ + opt_entry(sep, name@, opt_fixed_str(v)));
        },
        None => {
            assert(final(out)@ =~= old(out)@ + opt_entry(sep, name@, opt_fixed_str(v)));
        },
    }
}

pub fn push_opt_int(out: &mut Vec<char>, sep: char, name: &str, v: Option<i32>)
    ensures
        final(out)@ == old(out)@ + opt_entry(sep, name@, opt_int_str(v)),
{
    match v {
        Some(x) => {
            push_entry_start(out, sep, name);
            push_int(out, x as i64);
            assert(final(out)@ =~= old(out)@ + opt_entry(sep, name@, opt_int_str(v)));
        },
        None => {
            assert(final(out)@ =~= old(out)@ + opt_entry(sep, name@, opt_int_str(v)));
        },
    }
}

pub fn push_opt_flag(out: &mut Vec<char>, sep: char, name: &str, v: Option<bool>)
    ensures
        final(out)@ == old(out)@ + opt_entry(sep, name@, opt_flag_str(v)),
{
    match v {
        Some(b) => {
            push_entry_start(out, sep, name);
            push_flag(out, b);
            assert(final(out)@ =~= old(out)@ + opt_entry(sep, name@, opt_flag_str(v)));
        },
        None => {
            assert(final(out)@ =~= old(out)@ + opt_entry(sep, name@, opt_flag_str(v)));
        },
    }
}

pub fn named_i32(s: &Vec<char>, secs: &Vec<(usize, usize)>, w: &str) -> (r: Result<
    Option<i32>,
    FormatError,
>)
    requires
        crate::codec::ranges_within(secs@, 0, s@.len() as int),
        secs@.len() >= 1,
    ensures
        r is Err <==> opt_int(pieces(s@, secs@), w@, i32::MIN as int, i32::MAX as int) is None,
        r matches Ok(v) ==> opt_int(pieces(s@, secs@), w@, i32::MIN as int, i32::MAX as int)
            == Some(widen32(v)),
{
    match named_int(s, secs, w, i32::MIN as i64, i32::MAX as i64) {
        Ok(Some(x)) => Ok(Some(x as i32)),
        Ok(None) => Ok(None),
        Err(e) => Err(e),
    }
}

/// Size of an object when held in a container, with an optional rotation
/// in vertical slots: `containSize=1.000000,vertSlotRot=0.500000`.
#[derive(Clone, Debug, PartialEq)]
pub struct ContainSizeData {
    pub containSize: Fixed,
    pub vertSlotRot: Option<Fixed>,
}

impl ContainSizeData {
    pub open spec fn wf(self) -> bool {
        self.containSize.wf() && opt_fixed_wf(self.vertSlotRot)
    }

    /// The line that encodes this value.
    pub open spec fn text(self) -> Seq<char> {
        entry_str("containSize"@, fixed_str(self.containSize.micros as int)) + opt_entry(
            ',',
            "vertSlotRot"@,
            opt_fixed_str(self.vertSlotRot),
        )
    }

    /// The value a line encodes, if it is well formed.
    pub open spec fn parse(line: Seq<char>) -> Option<ContainSizeData> {
        let secs = split(line, ',');
        match head_value(secs) {
            Some(h) => match (parse_fixed(h), opt_fixed(secs, "vertSlotRot"@)) {
                (Some(c), Some(v)) => Some(
                    ContainSizeData { containSize: Fixed { micros: c as i64 }, vertSlotRot: v },
                ),
                _ => None,
            },
            None => None,
        }
    }

    pub fn push_text(&self, out: &mut Vec<char>)
        requires
            self.wf(),
        ensures
            final(out)@ == old(out)@ + self.text(),
    {
        push_str(out, "containSize=");
        push_fixed(out, self.containSize);
        push_opt_fixed(out, ',', "vertSlotRot", self.vertSlotRot);
        proof {
            reveal_strlit("containSize=");
            reveal_strlit("containSize");
            assert(final(out)@ =~= old(out)@ + self.text());
        }
    }

    pub fn to_string(&self) -> (r: String)
        requires
            self.wf(),
        ensures
            r@ == self.text(),
    {
        let mut out = Vec::new();
        self.push_text(&mut out);
        string_of(&out)
    }

    pub fn read(s: &Vec<char>, lo: usize, hi: usize) -> (r: Result<ContainSizeData, FormatError>)
        requires
            lo <= hi <= s@.len(),
        ensures
            r is Err <==> Self::parse(s@.subrange(lo as int, hi as int)) is None,
            r matches Ok(d) ==> d.wf() && Self::parse(s@.subrange(lo as int, hi as int)) == Some(
                d,
            ),
    {
        let secs = split_ranges(s, lo, hi, ',');
        proof {
            lemma_split_len(s@.subrange(lo as int, hi as int), ',');
        }
        let (a, b) = match head_range(s, &secs) {
            Ok(p) => p,
            Err(e) => return Err(e),
        };
        let c = match read_fixed(s, a, b) {
            Some(c) => c,
            None => return Err(FormatError::Malformed),
        };
        let v = match named_fixed(s, &secs, "vertSlotRot") {
            Ok(v) => v,
            Err(e) => return Err(e),
        };
        Ok(ContainSizeData { containSize: c, vertSlotRot: v })
    }

    pub fn from_str(line: &str) -> (r: Result<ContainSizeData, FormatError>)
        ensures
            r is Err <==> Self::parse(line@) is None,
            r matches Ok(d) ==> d.wf() && Self::parse(line@) == Some(d),
    {
        let s = chars_of(line);
        assert(s@.subrange(0, s@.len() as int) =~= s@);
        Self::read(&s, 0, s.len())
    }
}

/// Reading back the text of a value gives the value.
pub proof fn lemma_contain_size_round_trip(d: ContainSizeData)
    requires
        d.wf(),
    ensures
        ContainSizeData::parse(d.text()) == Some(d),
{
    reveal_strlit("containSize");
    reveal_strlit("vertSlotRot");
    let c = fixed_str(d.containSize.micros as int);
    lemma_fixed_round(d.containSize.micros as int);
    lemma_numeric_free(c, ',');
    lemma_numeric_free(c, '=');
    let n1 = "containSize"@;
    assert(free_of(n1, ','));
    assert(free_of(n1, '='));
    let h = entry_str(n1, c);
    lemma_entry(n1, c);
    lemma_entry_free(n1, c, ',');
    match d.vertSlotRot {
        Some(v) => {
            let t = fixed_str(v.micros as int);
            lemma_fixed_round(v.micros as int);
            lemma_numeric_free(t, ',');
            lemma_numeric_free(t, '=');
            let n2 = "vertSlotRot"@;
            assert(free_of(n2, ','));
            assert(free_of(n2, '='));
            let e2 = entry_str(n2, t);
            lemma_entry(n2, t);
            lemma_entry_free(n2, t, ',');
            lemma_split_free(h, ',');
            lemma_split_sep(h, e2, ',');
            assert(d.text() =~= h + seq![','] + e2);
            let secs = split(d.text(), ',');
            assert(secs =~= seq![h, e2]);
            assert(secs.drop_last() =~= seq![h]);
        },
        None => {
            lemma_split_free(h, ',');
            assert(d.text() =~= h);
        },
    }
}

/// Whether an object stays where it is, with the age from which it can be
/// picked up: `permanent=0,minPickupAge=3`.
#[derive(Clone, Debug, PartialEq)]
pub struct PermanentData {
    pub permanent: bool,
    pub minPickupAge: Option<i32>,
}

impl PermanentData {
    pub open spec fn text(self) -> Seq<char> {
        entry_str("permanent"@, flag_str(self.permanent)) + opt_entry(
            ',',
            "minPickupAge"@,
            opt_int_str(self.minPickupAge),
        )
    }

    pub open spec fn parse(line: Seq<char>) -> Option<PermanentData> {
        let secs = split(line, ',');
        match head_value(secs) {
            Some(h) => match (flag_of(h), opt_int(secs, "minPickupAge"@, i32::MIN as int, i32::MAX as int)) {
                (Some(p), Some(m)) => Some(PermanentData { permanent: p, minPickupAge: narrow32(m) }),
                _ => None,
            },
            None => None,
        }
    }

    pub fn push_text(&self, out: &mut Vec<char>)
        ensures
            final(out)@ == old(out)@ + self.text(),
    {
        push_str(out, "permanent=");
        push_flag(out, self.permanent);
        push_opt_int(out, ',', "minPickupAge", self.minPickupAge);
        proof {
            reveal_strlit("permanent=");
            reveal_strlit("permanent");
            assert(final(out)@ =~= old(out)@ + self.text());
        }
    }

    pub fn to_string(&self) -> (r: String)
        ensures
            r@ == self.text(),
    {
        let mut out = Vec::new();
        self.push_text(&mut out);
        string_of(&out)
    }

    pub fn read(s: &Vec<char>, lo: usize, hi: usize) -> (r: Result<PermanentData, FormatError>)
        requires
            lo <= hi <= s@.len(),
        ensures
            r is Err <==> Self::parse(s@.subrange(lo as int, hi as int)) is None,
            r matches Ok(d) ==> Self::parse(s@.subrange(lo as int, hi as int)) == Some(d),
    {
        let secs = split_ranges(s, lo, hi, ',');
        proof {
            lemma_split_len(s@.subrange(lo as int, hi as int), ',');
        }
        let (a, b) = match head_range(s, &secs) {
            Ok(p) => p,
            Err(e) => return Err(e),
        };
        let p = match read_flag(s, a, b) {
            Some(p) => p,
            None => return Err(FormatError::Malformed),
        };
        let m = match named_i32(s, &secs, "minPickupAge") {
            Ok(v) => v,
            Err(e) => return Err(e),
        };
        Ok(PermanentData { permanent: p, minPickupAge: m })
    }

    pub fn from_str(line: &str) -> (r: Result<PermanentData, FormatError>)
        ensures
            r is Err <==> Self::parse(line@) is None,
            r matches Ok(d) ==> Self::parse(line@) == Some(d),
    {
        let s = chars_of(line);
        assert(s@.subrange(0, s@.len() as int) =~= s@);
        Self::read(&s, 0, s.len())
    }
}

pub proof fn lemma_permanent_round_trip(d: PermanentData)
    ensures
        PermanentData::parse(d.text()) == Some(d),
{
    reveal_strlit("permanent");
    reveal_strlit("minPickupAge");
    lemma_flag_text(d.permanent);
    let h = entry_str("permanent"@, flag_str(d.permanent));
    lemma_head("permanent"@, flag_str(d.permanent), ',');
    if let Some(x) = d.minPickupAge {
        lemma_int_text(x as int);
    }
    lemma_append_opt(h, ',', "minPickupAge"@, opt_int_str(d.minPickupAge));
}

/// A person object's age-independent number, with a flag that keeps it from
/// spawning: `person=1,noSpawn=0`.
#[derive(Clone, Debug, PartialEq)]
pub struct PersonData {
    pub person: i8,
    pub noSpawn: Option<bool>,
}

impl PersonData {
    pub open spec fn text(self) -> Seq<char> {
        entry_str("person"@, int_str(self.person as int)) + opt_entry(
            ',',
            "noSpawn"@,
            opt_flag_str(self.noSpawn),
        )
    }

    pub open spec fn parse(line: Seq<char>) -> Option<PersonData> {
        let secs = split(line, ',');
        match head_value(secs) {
            Some(h) => match (parse_int_within(h, -128, 127), opt_flag(secs, "noSpawn"@)) {
                (Some(p), Some(n)) => Some(PersonData { person: p as i8, noSpawn: n }),
                _ => None,
            },
            None => None,
        }
    }

    pub fn push_text(&self, out: &mut Vec<char>)
        ensures
            final(out)@ == old(out)@ + self.text(),
    {
        push_str(out, "person=");
        push_int(out, self.person as i64);
        push_opt_flag(out, ',', "noSpawn", self.noSpawn);
        proof {
            reveal_strlit("person=");
            reveal_strlit("person");
            assert(final(out)@ =~= old(out)@ + self.text());
        }
    }

    pub fn to_string(&self) -> (r: String)
        ensures
            r@ == self.text(),
    {
        let mut out = Vec::new();
        self.push_text(&mut out);
        string_of(&out)
    }

    pub fn read(s: &Vec<char>, lo: usize, hi: usize) -> (r: Result<PersonData, FormatError>)
        requires
            lo <= hi <= s@.len(),
        ensures
            r is Err <==> Self::parse(s@.subrange(lo as int, hi as int)) is None,
            r matches Ok(d) ==> Self::parse(s@.subrange(lo as int, hi as int)) == Some(d),
    {
        let secs = split_ranges(s, lo, hi, ',');
        proof {
            lemma_split_len(s@.subrange(lo as int, hi as int), ',');
        }
        let (a, b) = match head_range(s, &secs) {
            Ok(p) => p,
            Err(e) => return Err(e),
        };
        let p = match read_int(s, a, b, -128, 127) {
            Some(p) => p,
            None => return Err(FormatError::Malformed),
        };
        let n = match named_flag(s, &secs, "noSpawn") {
            Ok(v) => v,
            Err(e) => return Err(e),
        };
        Ok(PersonData { person: p as i8, noSpawn: n })
    }

    pub fn from_str(line: &str) -> (r: Result<PersonData, FormatError>)
        ensures
            r is Err <==> Self::parse(line@) is None,
            r matches Ok(d) ==> Self::parse(line@) == Some(d),
    {
        let s = chars_of(line);
        assert(s@.subrange(0, s@.len() as int) =~= s@);
        Self::read(&s, 0, s.len())
    }
}

pub proof fn lemma_person_round_trip(d: PersonData)
    ensures
        PersonData::parse(d.text()) == Some(d),
{
    reveal_strlit("person");
    reveal_strlit("noSpawn");
    lemma_int_text(d.person as int);
    let h = entry_str("person"@, int_str(d.person as int));
    lemma_head("person"@, int_str(d.person as int), ',');
    if let Some(b) = d.noSpawn {
        lemma_flag_text(b);
    }
    lemma_append_opt(h, ',', "noSpawn"@, opt_flag_str(d.noSpawn));
}

/// Whether an object blocks walking, with optional blocking radii and
/// drawing order: `blocksWalking=1,leftBlockingRadius=1,rightBlockingRadius=1`.
#[derive(Clone, Debug, PartialEq)]
pub struct BlocksWalkingData {
    pub blocksWalking: bool,
    pub leftBlockingRadius: Option<i32>,
    pub rightBlockingRadius: Option<i32>,
    pub drawBehindPlayer: Option<bool>,
}

impl BlocksWalkingData {
    pub open spec fn text(self) -> Seq<char> {
        entry_str("blocksWalking"@, flag_str(self.blocksWalking)) + opt_entry(
            ',',
            "leftBlockingRadius"@,
            opt_int_str(self.leftBlockingRadius),
        ) + opt_entry(',', "rightBlockingRadius"@, opt_int_str(self.rightBlockingRadius))
            + opt_entry(',', "drawBehindPlayer"@, opt_flag_str(self.drawBehindPlayer))
    }

    pub open spec fn parse(line: Seq<char>) -> Option<BlocksWalkingData> {
        let secs = split(line, ',');
        match head_value(secs) {
            Some(h) => match (
                flag_of(h),
                opt_int(secs, "leftBlockingRadius"@, i32::MIN as int, i32::MAX as int),
                opt_int(secs, "rightBlockingRadius"@, i32::MIN as int, i32::MAX as int),
                opt_flag(secs, "drawBehindPlayer"@),
            ) {
                (Some(b), Some(l), Some(r), Some(d)) => Some(
                    BlocksWalkingData {
                        blocksWalking: b,
                        leftBlockingRadius: narrow32(l),
                        rightBlockingRadius: narrow32(r),
                        drawBehindPlayer: d,
                    },
                ),
                _ => None,
            },
            None => None,
        }
    }

    pub fn push_text(&self, out: &mut Vec<char>)
        ensures
            final(out)@ == old(out)@ + self.text(),
    {
        push_str(out, "blocksWalking=");
        push_flag(out, self.blocksWalking);
        push_opt_int(out, ',', "leftBlockingRadius", self.leftBlockingRadius);
        push_opt_int(out, ',', "rightBlockingRadius", self.rightBlockingRadius);
        push_opt_flag(out, ',', "drawBehindPlayer", self.drawBehindPlayer);
        proof {
            reveal_strlit("blocksWalking=");
            reveal_strlit("blocksWalking");
            assert(final(out)@ =~= old(out)@ + self.text());
        }
    }

    pub fn to_string(&self) -> (r: String)
        ensures
            r@ == self.text(),
    {
        let mut out = Vec::new();
        self.push_text(&mut out);
        string_of(&out)
    }

    pub fn read(s: &Vec<char>, lo: usize, hi: usize) -> (r: Result<BlocksWalkingData, FormatError>)
        requires
            lo <= hi <= s@.len(),
        ensures
            r is Err <==> Self::parse(s@.subrange(lo as int, hi as int)) is None,
            r matches Ok(d) ==> Self::parse(s@.subrange(lo as int, hi as int)) == Some(d),
    {
        let secs = split_ranges(s, lo, hi, ',');
        proof {
            lemma_split_len(s@.subrange(lo as int, hi as int), ',');
        }
        let (a, b) = match head_range(s, &secs) {
            Ok(p) => p,
            Err(e) => return Err(e),
        };
        let bw = match read_flag(s, a, b) {
            Some(p) => p,
            None => return Err(FormatError::Malformed),
        };
        let l = match named_i32(s, &secs, "leftBlockingRadius") {
            Ok(v) => v,
            Err(e) => return Err(e),
        };
        let r = match named_i32(s, &secs, "rightBlockingRadius") {
            Ok(v) => v,
            Err(e) => return Err(e),
        };
        let d = match named_flag(s, &secs, "drawBehindPlayer") {
            Ok(v) => v,
            Err(e) => return Err(e),
        };
        Ok(
            BlocksWalkingData {
                blocksWalking: bw,
                leftBlockingRadius: l,
                rightBlockingRadius: r,
                drawBehindPlayer: d,
            },
        )
    }

    pub fn from_str(line: &str) -> (r: Result<BlocksWalkingData, FormatError>)
        ensures
            r is Err <==> Self::parse(line@) is None,
            r matches Ok(d) ==> Self::parse(line@) == Some(d),
    {
        let s = chars_of(line);
        assert(s@.subrange(0, s@.len() as int) =~= s@);
        Self::read(&s, 0, s.len())
    }
}

pub proof fn lemma_blocks_walking_round_trip(d: BlocksWalkingData)
    ensures
        BlocksWalkingData::parse(d.text()) == Some(d),
{
    reveal_strlit("blocksWalking");
    reveal_strlit("leftBlockingRadius");
    reveal_strlit("rightBlockingRadius");
    reveal_strlit("drawBehindPlayer");
    lemma_flag_text(d.blocksWalking);
    let h = entry_str("blocksWalking"@, flag_str(d.blocksWalking));
    lemma_head("blocksWalking"@, flag_str(d.blocksWalking), ',');
    if let Some(x) = d.leftBlockingRadius {
        lemma_int_text(x as int);
    }
    if let Some(x) = d.rightBlockingRadius {
        lemma_int_text(x as int);
    }
    if let Some(b) = d.drawBehindPlayer {
        lemma_flag_text(b);
    }
    let o1 = opt_entry(',', "leftBlockingRadius"@, opt_int_str(d.leftBlockingRadius));
    let o2 = opt_entry(',', "rightBlockingRadius"@, opt_int_str(d.rightBlockingRadius));
    lemma_append_opt(h, ',', "leftBlockingRadius"@, opt_int_str(d.leftBlockingRadius));
    lemma_append_opt(h + o1, ',', "rightBlockingRadius"@, opt_int_str(d.rightBlockingRadius));
    lemma_append_opt(h + o1 + o2, ',', "drawBehindPlayer"@, opt_flag_str(d.drawBehindPlayer));
    lemma_split_len(h + o1 + o2, ',');
    lemma_split_len(h + o1, ',');
}

/// Number of container slots, with an optional stretch of decay time for
/// contents: `numSlots=3#timeStretch=2.000000`.
#[derive(Clone, Debug, PartialEq)]
pub struct NumSlotsData {
    pub numSlots: i32,
    pub timeStretch: Option<Fixed>,
}

impl NumSlotsData {
    pub open spec fn wf(self) -> bool {
        opt_fixed_wf(self.timeStretch)
    }

    pub open spec fn text(self) -> Seq<char> {
        entry_str("numSlots"@, int_str(self.numSlots as int)) + opt_entry(
            '#',
            "timeStretch"@,
            opt_fixed_str(self.timeStretch),
        )
    }

    pub open spec fn parse(line: Seq<char>) -> Option<NumSlotsData> {
        let secs = split(line, '#');
        match head_value(secs) {
            Some(h) => match (
                parse_int_within(h, i32::MIN as int, i32::MAX as int),
                opt_fixed(secs, "timeStretch"@),
            ) {
                (Some(n), Some(t)) => Some(NumSlotsData { numSlots: n as i32, timeStretch: t }),
                _ => None,
            },
            None => None,
        }
    }

    pub fn push_text(&self, out: &mut Vec<char>)
        requires
            self.wf(),
        ensures
            final(out)@ == old(out)@ + self.text(),
    {
        push_str(out, "numSlots=");
        push_int(out, self.numSlots as i64);
        push_opt_fixed(out, '#', "timeStretch", self.timeStretch);
        proof {
            reveal_strlit("numSlots=");
            reveal_strlit("numSlots");
            assert(final(out)@ =~= old(out)@ + self.text());
        }
    }

    pub fn to_string(&self) -> (r: String)
        requires
            self.wf(),
        ensures
            r@ == self.text(),
    {
        let mut out = Vec::new();
        self.push_text(&mut out);
        string_of(&out)
    }

    pub fn read(s: &Vec<char>, lo: usize, hi: usize) -> (r: Result<NumSlotsData, FormatError>)
        requires
            lo <= hi <= s@.len(),
        ensures
            r is Err <==> Self::parse(s@.subrange(lo as int, hi as int)) is None,
            r matches Ok(d) ==> d.wf() && Self::parse(s@.subrange(lo as int, hi as int)) == Some(d),
    {
        let secs = split_ranges(s, lo, hi, '#');
        proof {
            lemma_split_len(s@.subrange(lo as int, hi as int), '#');
        }
        let (a, b) = match head_range(s, &secs) {
            Ok(p) => p,
            Err(e) => return Err(e),
        };
        let n = match read_int(s, a, b, i32::MIN as i64, i32::MAX as i64) {
            Some(n) => n,
            None => return Err(FormatError::Malformed),
        };
        let t = match named_fixed(s, &secs, "timeStretch") {
            Ok(v) => v,
            Err(e) => return Err(e),
        };
        Ok(NumSlotsData { numSlots: n as i32, timeStretch: t })
    }

    pub fn from_str(line: &str) -> (r: Result<NumSlotsData, FormatError>)
        ensures
            r is Err <==> Self::parse(line@) is None,
            r matches Ok(d) ==> d.wf() && Self::parse(line@) == Some(d),
    {
        let s = chars_of(line);
        assert(s@.subrange(0, s@.len() as int) =~= s@);
        Self::read(&s, 0, s.len())
    }
}

pub proof fn lemma_num_slots_round_trip(d: NumSlotsData)
    requires
        d.wf(),
    ensures
        NumSlotsData::parse(d.text()) == Some(d),
{
    reveal_strlit("numSlots");
    reveal_strlit("timeStretch");
    lemma_int_text(d.numSlots as int);
    let h = entry_str("numSlots"@, int_str(d.numSlots as int));
    lemma_head("numSlots"@, int_str(d.numSlots as int), '#');
    if let Some(x) = d.timeStretch {
        lemma_fixed_text(x.micros as int);
    }
    lemma_append_opt(h, '#', "timeStretch"@, opt_fixed_str(d.timeStretch));
}

/// How a sprite hides while held or worn:
/// `invisHolding=0,invisWorn=0,behindSlots=0`. Both later entries are
/// required.
#[derive(Clone, Debug, PartialEq)]
pub struct InvisHoldingData {
    pub invisHolding: bool,
    pub invisWorn: i32,
    pub behindSlots: bool,
}

impl InvisHoldingData {
    pub open spec fn text(self) -> Seq<char> {
        entry_str("invisHolding"@, flag_str(self.invisHolding)) + opt_entry(
            ',',
            "invisWorn"@,
            Some(int_str(self.invisWorn as int)),
        ) + opt_entry(',', "behindSlots"@, Some(flag_str(self.behindSlots)))
    }

    pub open spec fn parse(line: Seq<char>) -> Option<InvisHoldingData> {
        let secs = split(line, ',');
        match head_value(secs) {
            Some(h) => match (
                flag_of(h),
                opt_int(secs, "invisWorn"@, i32::MIN as int, i32::MAX as int),
                opt_flag(secs, "behindSlots"@),
            ) {
                (Some(i), Some(Some(w)), Some(Some(b))) => Some(
                    InvisHoldingData { invisHolding: i, invisWorn: w as i32, behindSlots: b },
                ),
                _ => None,
            },
            None => None,
        }
    }

    pub fn push_text(&self, out: &mut Vec<char>)
        ensures
            final(out)@ == old(out)@ + self.text(),
    {
        push_str(out, "invisHolding=");
        push_flag(out, self.invisHolding);
        push_opt_int(out, ',', "invisWorn", Some(self.invisWorn));
        push_opt_flag(out, ',', "behindSlots", Some(self.behindSlots));
        proof {
            reveal_strlit("invisHolding=");
            reveal_strlit("invisHolding");
            assert(final(out)@ =~= old(out)@ + self.text());
        }
    }

    pub fn to_string(&self) -> (r: String)
        ensures
            r@ == self.text(),
    {
        let mut out = Vec::new();
        self.push_text(&mut out);
        string_of(&out)
    }

    /// A line whose head reads but that has no `invisWorn` entry.
    pub open spec fn lacks_worn(line: Seq<char>) -> bool {
        let secs = split(line, ',');
        &&& head_value(secs) matches Some(h) && flag_of(h) is Some
        &&& last_named(secs, "invisWorn"@) is None
    }

    /// A line whose head and `invisWorn` read but that has no `behindSlots`
    /// entry.
    pub open spec fn lacks_behind(line: Seq<char>) -> bool {
        let secs = split(line, ',');
        &&& head_value(secs) matches Some(h) && flag_of(h) is Some
        &&& opt_int(secs, "invisWorn"@, i32::MIN as int, i32::MAX as int) matches Some(Some(_))
        &&& last_named(secs, "behindSlots"@) is None
    }

    /// Reads the value; an absent `invisWorn` or `behindSlots` is
    /// [`FormatError::Missing`] naming it.
    pub fn read(s: &Vec<char>, lo: usize, hi: usize) -> (r: Result<InvisHoldingData, FormatError>)
        requires
            lo <= hi <= s@.len(),
        ensures
            r is Err <==> Self::parse(s@.subrange(lo as int, hi as int)) is None,
            r matches Ok(d) ==> Self::parse(s@.subrange(lo as int, hi as int)) == Some(d),
            Self::lacks_worn(s@.subrange(lo as int, hi as int)) ==> r == Err::<InvisHoldingData, FormatError>(FormatError::Missing(Part::InvisWorn)),
            Self::lacks_behind(s@.subrange(lo as int, hi as int)) ==> r == Err::<InvisHoldingData, FormatError>(FormatError::Missing(Part::BehindSlots)),
    {
        let secs = split_ranges(s, lo, hi, ',');
        proof {
            lemma_split_len(s@.subrange(lo as int, hi as int), ',');
        }
        let (a, b) = match head_range(s, &secs) {
            Ok(p) => p,
            Err(e) => return Err(e),
        };
        let i = match read_flag(s, a, b) {
            Some(p) => p,
            None => return Err(FormatError::Malformed),
        };
        let w = match named_i32(s, &secs, "invisWorn") {
            Ok(Some(v)) => v,
            Ok(None) => return Err(FormatError::Missing(Part::InvisWorn)),
            Err(e) => return Err(e),
        };
        let bs = match named_flag(s, &secs, "behindSlots") {
            Ok(Some(v)) => v,
            Ok(None) => return Err(FormatError::Missing(Part::BehindSlots)),
            Err(e) => return Err(e),
        };
        Ok(InvisHoldingData { invisHolding: i, invisWorn: w, behindSlots: bs })
    }

    pub fn from_str(line: &str) -> (r: Result<InvisHoldingData, FormatError>)
        ensures
            r is Err <==> Self::parse(line@) is None,
            r matches Ok(d) ==> Self::parse(line@) == Some(d),
            Self::lacks_worn(line@) ==> r == Err::<InvisHoldingData, FormatError>(FormatError::Missing(Part::InvisWorn)),
            Self::lacks_behind(line@) ==> r == Err::<InvisHoldingData, FormatError>(FormatError::Missing(Part::BehindSlots)),
    {
        let s = chars_of(line);
        assert(s@.subrange(0, s@.len() as int) =~= s@);
        Self::read(&s, 0, s.len())
    }
}

pub proof fn lemma_invis_holding_round_trip(d: InvisHoldingData)
    ensures
        InvisHoldingData::parse(d.text()) == Some(d),
{
    reveal_strlit("invisHolding");
    reveal_strlit("invisWorn");
    reveal_strlit("behindSlots");
    lemma_flag_text(d.invisHolding);
    lemma_int_text(d.invisWorn as int);
    lemma_flag_text(d.behindSlots);
    let h = entry_str("invisHolding"@, flag_str(d.invisHolding));
    lemma_head("invisHolding"@, flag_str(d.invisHolding), ',');
    let o1 = opt_entry(',', "invisWorn"@, Some(int_str(d.invisWorn as int)));
    lemma_append_opt(h, ',', "invisWorn"@, Some(int_str(d.invisWorn as int)));
    lemma_append_opt(h + o1, ',', "behindSlots"@, Some(flag_str(d.behindSlots)));
    lemma_split_len(h + o1, ',');
}

/// Number of uses, with an optional chance that a use is spent:
/// `numUses=3,0.500000`.
#[derive(Clone, Debug, PartialEq)]
pub struct NumUsesData {
    pub numUses: i32,
    pub useChance: Option<Fixed>,
}

impl NumUsesData {
    pub open spec fn wf(self) -> bool {
        opt_fixed_wf(self.useChance)
    }

    pub open spec fn text(self) -> Seq<char> {
        entry_str("numUses"@, int_str(self.numUses as int)) + match self.useChance {
            Some(c) => seq![','] + fixed_str(c.micros as int),
            None => Seq::empty(),
        }
    }

    /// The second piece, when present, is the chance; one that does not
    /// parse is dropped.
    pub open spec fn parse(line: Seq<char>) -> Option<NumUsesData> {
        let secs = split(line, ',');
        match head_value(secs) {
            Some(h) => match parse_int_within(h, i32::MIN as int, i32::MAX as int) {
                Some(n) => Some(
                    NumUsesData {
                        numUses: n as i32,
                        useChance: if secs.len() > 1 {
                            match parse_fixed(secs[1]) {
                                Some(m) => Some(Fixed { micros: m as i64 }),
                                None => None,
                            }
                        } else {
                            None
                        },
                    },
                ),
                None => None,
            },
            None => None,
        }
    }

    pub fn push_text(&self, out: &mut Vec<char>)
        requires
            self.wf(),
        ensures
            final(out)@ == old(out)@ + self.text(),
    {
        push_str(out, "numUses=");
        push_int(out, self.numUses as i64);
        if let Some(c) = self.useChance {
            out.push(',');
            push_fixed(out, c);
        }
        proof {
            reveal_strlit("numUses=");
            reveal_strlit("numUses");
            assert(final(out)@ =~= old(out)@ + self.text());
        }
    }

    pub fn to_string(&self) -> (r: String)
        requires
            self.wf(),
        ensures
            r@ == self.text(),
    {
        let mut out = Vec::new();
        self.push_text(&mut out);
        string_of(&out)
    }

    pub fn read(s: &Vec<char>, lo: usize, hi: usize) -> (r: Result<NumUsesData, FormatError>)
        requires
            lo <= hi <= s@.len(),
        ensures
            r is Err <==> Self::parse(s@.subrange(lo as int, hi as int)) is None,
            r matches Ok(d) ==> d.wf() && Self::parse(s@.subrange(lo as int, hi as int)) == Some(d),
    {
        let secs = split_ranges(s, lo, hi, ',');
        proof {
            lemma_split_len(s@.subrange(lo as int, hi as int), ',');
        }
        let (a, b) = match head_range(s, &secs) {
            Ok(p) => p,
            Err(e) => return Err(e),
        };
        let n = match read_int(s, a, b, i32::MIN as i64, i32::MAX as i64) {
            Some(n) => n,
            None => return Err(FormatError::Malformed),
        };
        let c = if secs.len() > 1 {
            let (c0, c1) = secs[1];
            assert(pieces(s@, secs@)[1] == s@.subrange(c0 as int, c1 as int));
            read_fixed(s, c0, c1)
        } else {
            None
        };
        Ok(NumUsesData { numUses: n as i32, useChance: c })
    }

    pub fn from_str(line: &str) -> (r: Result<NumUsesData, FormatError>)
        ensures
            r is Err <==> Self::parse(line@) is None,
            r matches Ok(d) ==> d.wf() && Self::parse(line@) == Some(d),
    {
        let s = chars_of(line);
        assert(s@.subrange(0, s@.len() as int) =~= s@);
        Self::read(&s, 0, s.len())
    }
}

pub proof fn lemma_num_uses_round_trip(d: NumUsesData)
    requires
        d.wf(),
    ensures
        NumUsesData::parse(d.text()) == Some(d),
{
    reveal_strlit("numUses");
    lemma_int_text(d.numUses as int);
    let h = entry_str("numUses"@, int_str(d.numUses as int));
    lemma_head("numUses"@, int_str(d.numUses as int), ',');
    if let Some(c) = d.useChance {
        let f = fixed_str(c.micros as int);
        lemma_fixed_text(c.micros as int);
        lemma_split_sep(h, f, ',');
        assert(d.text() =~= h + seq![','] + f);
        assert(split(d.text(), ',') =~= seq![h, f]);
    } else {
        assert(d.text() =~= h);
    }
}

/// The sounds line of an object, kept as written: `sounds=...`.
#[derive(Clone, Debug, PartialEq)]
pub struct SoundsData {
    pub data: String,
}

impl SoundsData {
    pub open spec fn text(self) -> Seq<char> {
        self.data@
    }

    pub fn push_text(&self, out: &mut Vec<char>)
        ensures
            final(out)@ == old(out)@ + self.text(),
    {
        push_str(out, self.data.as_str());
    }

    pub fn to_string(&self) -> (r: String)
        ensures
            r@ == self.text(),
    {
        self.data.clone()
    }

    /// Keeps the whole line.
    pub fn read(s: &Vec<char>, lo: usize, hi: usize) -> (r: SoundsData)
        requires
            lo <= hi <= s@.len(),
        ensures
            r.text() == s@.subrange(lo as int, hi as int),
    {
        let mut v: Vec<char> = Vec::new();
        crate::text::push_range(&mut v, s, lo, hi);
        SoundsData { data: string_of(&v) }
    }

    pub fn from_str(line: &str) -> (r: Result<SoundsData, FormatError>)
        ensures
            r matches Ok(d) && d.text() == line@,
    {
        Ok(SoundsData { data: <String as vstd::string::StringExecFns>::from_str(line) })
    }
}

} // verus!
