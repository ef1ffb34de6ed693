//! Composite values: a delimiter-separated line whose first piece is
//! `key=value` and whose later pieces are `name=value` entries looked up by
//! name. Unknown names are skipped; when a name repeats, the last one counts.
use vstd::prelude::*;

use crate::codec::{
    Fixed, fixed_str, free_of, is_digit, int_str, lemma_nat_str, lemma_padded_str,
    lemma_parse_fixed_str, lemma_parse_int_str, lemma_split_free, lemma_split_len, lemma_split_sep,
    nat_str, padded_str, parse_fixed, parse_int_within, pieces, ranges_within, read_fixed,
    read_int, split, split_ranges, FIXED_LIMIT,
};
use crate::text::eq_word;

verus! {

/// Why a line of the object format could not be read.
#[derive(Clone, Copy, Debug, PartialEq, Eq, Structural)]
pub enum FormatError {
    /// A value is missing its `=` or does not parse.
    Malformed,
    /// A required part of a composite value is absent; it names the part.
    Missing(Part),
    /// A category code outside the known set.
    UnknownCode,
}

/// Name of an entry: the text before its first `=`.
pub open spec fn entry_name(sec: Seq<char>) -> Seq<char> {
    split(sec, '=')[0]
}

/// Value of an entry: the text between its first and second `=`.
pub open spec fn entry_value(sec: Seq<char>) -> Option<Seq<char>> {
    let p = split(sec, '=');
    if p.len() >= 2 {
        Some(p[1])
    } else {
        None
    }
}

/// The value slot of the last entry after the head named `name`; `None` when
/// no such entry exists.
pub open spec fn last_named(secs: Seq<Seq<char>>, name: Seq<char>) -> Option<Option<Seq<char>>>
    decreases secs.len(),
{
    if secs.len() <= 1 {
        None
    } else if entry_name(secs.last()) == name {
        Some(entry_value(secs.last()))
    } else {
        last_named(secs.drop_last(), name)
    }
}

/// An optional decimal entry: `Some(None)` when absent, `None` when it is
/// present but unreadable.
pub open spec fn opt_fixed(secs: Seq<Seq<char>>, name: Seq<char>) -> Option<Option<Fixed>> {
    match last_named(secs, name) {
        None => Some(None),
        Some(Some(v)) => match parse_fixed(v) {
            Some(m) => Some(Some(Fixed { micros: m as i64 })),
            None => None,
        },
        Some(None) => None,
    }
}

/// An optional integer entry within `[lo, hi]`, as [`opt_fixed`].
pub open spec fn opt_int(secs: Seq<Seq<char>>, name: Seq<char>, lo: int, hi: int) -> Option<
    Option<int>,
> {
    match last_named(secs, name) {
        None => Some(None),
        Some(Some(v)) => match parse_int_within(v, lo, hi) {
            Some(x) => Some(Some(x)),
            None => None,
        },
        Some(None) => None,
    }
}

/// A flag read as a small integer: any value other than zero is set.
pub open spec fn flag_of(v: Seq<char>) -> Option<bool> {
    match parse_int_within(v, -128, 127) {
        Some(x) => Some(x != 0),
        None => None,
    }
}

/// An optional flag entry, as [`opt_fixed`].
pub open spec fn opt_flag(secs: Seq<Seq<char>>, name: Seq<char>) -> Option<Option<bool>> {
    match last_named(secs, name) {
        None => Some(None),
        Some(Some(v)) => match flag_of(v) {
            Some(b) => Some(Some(b)),
            None => None,
        },
        Some(None) => None,
    }
}

/// The value of the head piece.
pub open spec fn head_value(secs: Seq<Seq<char>>) -> Option<Seq<char>> {
    entry_value(secs[0])
}

/// An optional machine integer as a mathematical one.
pub open spec fn widen(v: Option<i64>) -> Option<int> {
    match v {
        Some(x) => Some(x as int),
        None => None,
    }
}

/// Text of a flag.
pub open spec fn flag_str(b: bool) -> Seq<char> {
    if b {
        seq!['1']
    } else {
        seq!['0']
    }
}

/// `name=value`.
pub open spec fn entry_str(name: Seq<char>, v: Seq<char>) -> Seq<char> {
    name + seq!['='] + v
}

/// Writing a flag as a small integer, `1` or `0`.
pub trait ToI8: Sized {
    spec fn as_i8(self) -> i8;

    fn to_i8(self) -> (r: i8)
        ensures
            r == self.as_i8(),
    ;
}

impl ToI8 for bool {
    open spec fn as_i8(self) -> i8 {
        if self {
            1
        } else {
            0
        }
    }

    fn to_i8(self) -> (r: i8) {
        if self {
            1
        } else {
            0
        }
    }
}

/// Reading a small integer as a flag: set unless zero.
pub trait ToBool: Sized {
    spec fn as_bool(self) -> bool;

    fn to_bool(self) -> (r: bool)
        ensures
            r == self.as_bool(),
    ;
}

impl ToBool for i8 {
    open spec fn as_bool(self) -> bool {
        self != 0
    }

    fn to_bool(self) -> (r: bool) {
        self != 0
    }
}

/// A required part of a composite value.
#[derive(Clone, Copy, Debug, PartialEq, Eq, Structural)]
pub enum Part {
    /// The name line of a record.
    Name,
    Pos,
    Rot,
    HFlip,
    Color,
    AgeRange,
    Parent,
    InvisHolding,
    InvisWorn,
    BehindSlots,
    /// The numbers of a pair or a colour.
    Values,
    /// The second coordinate of a slot position.
    Coordinate,
}

impl Part {
    /// The name the format gives the part.
    pub open spec fn spec_name(self) -> Seq<char> {
        match self {
            Part::Name => "name"@,
            Part::Pos => "pos"@,
            Part::Rot => "rot"@,
            Part::HFlip => "hFlip"@,
            Part::Color => "color"@,
            Part::AgeRange => "ageRange"@,
            Part::Parent => "parent"@,
            Part::InvisHolding => "invisHolding"@,
            Part::InvisWorn => "invisWorn"@,
            Part::BehindSlots => "behindSlots"@,
            Part::Values => "values"@,
            Part::Coordinate => "coordinate"@,
        }
    }

    pub fn name(&self) -> (r: &'static str)
        ensures
            r@ == self.spec_name(),
    {
        match self {
            Part::Name => "name",
            Part::Pos => "pos",
            Part::Rot => "rot",
            Part::HFlip => "hFlip",
            Part::Color => "color",
            Part::AgeRange => "ageRange",
            Part::Parent => "parent",
            Part::InvisHolding => "invisHolding",
            Part::InvisWorn => "invisWorn",
            Part::BehindSlots => "behindSlots",
            Part::Values => "values",
            Part::Coordinate => "coordinate",
        }
    }
}

/// The text of a flag: `1` or `0`.
pub fn encode_bool(b: bool) -> (r: String)
    ensures
        r@ == flag_str(b),
{
    let mut out: Vec<char> = Vec::new();
    push_flag(&mut out, b);
    crate::text::string_of(&out)
}

/// Appends `1` or `0`.
pub fn push_flag(out: &mut Vec<char>, b: bool)
    ensures
        final(out)@ == old(out)@ + flag_str(b),
{
    if b {
        out.push('1');
    } else {
        out.push('0');
    }
    assert(final(out)@ =~= old(out)@ + flag_str(b));
}

/// Range of the value of the entry `s[lo..hi]`.
pub fn value_range(s: &Vec<char>, lo: usize, hi: usize) -> (r: Option<(usize, usize)>)
    requires
        lo <= hi <= s@.len(),
    ensures
        r is None <==> entry_value(s@.subrange(lo as int, hi as int)) is None,
        r matches Some(p) ==> p.0 <= p.1 <= s@.len() && entry_value(
            s@.subrange(lo as int, hi as int),
        ) == Some(s@.subrange(p.0 as int, p.1 as int)),
{
    let parts = split_ranges(s, lo, hi, '=');
    if parts.len() >= 2 {
        let p = parts[1];
        assert(pieces(s@, parts@)[1] == s@.subrange(p.0 as int, p.1 as int));
        Some(p)
    } else {
        None
    }
}

/// Whether the name of the entry `s[lo..hi]` is `w`.
pub fn name_is(s: &Vec<char>, lo: usize, hi: usize, w: &str) -> (r: bool)
    requires
        lo <= hi <= s@.len(),
    ensures
        r == (entry_name(s@.subrange(lo as int, hi as int)) == w@),
{
    let parts = split_ranges(s, lo, hi, '=');
    proof {
        lemma_split_len(s@.subrange(lo as int, hi as int), '=');
    }
    let p = parts[0];
    assert(pieces(s@, parts@)[0] == s@.subrange(p.0 as int, p.1 as int));
    eq_word(s, p.0, p.1, w)
}

/// The last entry of `secs` after the head that is named `w`.
pub fn find_named(s: &Vec<char>, secs: &Vec<(usize, usize)>, w: &str) -> (r: Option<
    Option<(usize, usize)>,
>)
    requires
        ranges_within(secs@, 0, s@.len() as int),
        secs@.len() >= 1,
    ensures
        r is None <==> last_named(pieces(s@, secs@), w@) is None,
        r == Some(None::<(usize, usize)>) <==> last_named(pieces(s@, secs@), w@) == Some(
            None::<Seq<char>>,
        ),
        r matches Some(Some(p)) ==> p.0 <= p.1 <= s@.len() && last_named(pieces(s@, secs@), w@)
            == Some(Some(s@.subrange(p.0 as int, p.1 as int))),
{
    let ghost all = pieces(s@, secs@);
    let mut k = secs.len();
    assert(all.take(k as int) =~= all);
    while k > 1
        invariant
            1 <= k <= secs@.len(),
            all == pieces(s@, secs@),
            ranges_within(secs@, 0, s@.len() as int),
            last_named(all, w@) == last_named(all.take(k as int), w@),
        decreases k,
    {
        let (a, b) = secs[k - 1];
        let ghost t = all.take(k as int);
        assert(t.last() == s@.subrange(a as int, b as int));
        assert(t.drop_last() =~= all.take(k - 1));
        if name_is(s, a, b, w) {
            return match value_range(s, a, b) {
                Some(p) => Some(Some(p)),
                None => Some(None),
            };
        }
        k = k - 1;
    }
    None
}

/// The last line after the first whose name is `name`.
pub open spec fn last_line(lines: Seq<Seq<char>>, name: Seq<char>) -> Option<Seq<char>>
    decreases lines.len(),
{
    if lines.len() <= 1 {
        None
    } else if entry_name(lines.last()) == name {
        Some(lines.last())
    } else {
        last_line(lines.drop_last(), name)
    }
}

/// The range of the last line of `lines` after the first named `w`.
pub fn find_line(s: &Vec<char>, lines: &Vec<(usize, usize)>, w: &str) -> (r: Option<
    (usize, usize),
>)
    requires
        ranges_within(lines@, 0, s@.len() as int),
        lines@.len() >= 1,
    ensures
        r is None <==> last_line(pieces(s@, lines@), w@) is None,
        r matches Some(p) ==> p.0 <= p.1 <= s@.len() && last_line(pieces(s@, lines@), w@) == Some(
            s@.subrange(p.0 as int, p.1 as int),
        ),
{
    let ghost all = pieces(s@, lines@);
    let mut k = lines.len();
    assert(all.take(k as int) =~= all);
    while k > 1
        invariant
            1 <= k <= lines@.len(),
            all == pieces(s@, lines@),
            ranges_within(lines@, 0, s@.len() as int),
            last_line(all, w@) == last_line(all.take(k as int), w@),
        decreases k,
    {
        let (a, b) = lines[k - 1];
        let ghost t = all.take(k as int);
        assert(t.last() == s@.subrange(a as int, b as int));
        assert(t.drop_last() =~= all.take(k - 1));
        if name_is(s, a, b, w) {
            return Some((a, b));
        }
        k = k - 1;
    }
    None
}

/// An optional decimal entry (see [`opt_fixed`]).
pub fn named_fixed(s: &Vec<char>, secs: &Vec<(usize, usize)>, w: &str) -> (r: Result<
    Option<Fixed>,
    FormatError,
>)
    requires
        ranges_within(secs@, 0, s@.len() as int),
        secs@.len() >= 1,
    ensures
        r is Err <==> opt_fixed(pieces(s@, secs@), w@) is None,
        r matches Ok(v) ==> opt_fixed(pieces(s@, secs@), w@) == Some(v),
        r matches Ok(Some(f)) ==> f.wf(),
        r matches Err(e) ==> e == FormatError::Malformed,
{
    match find_named(s, secs, w) {
        None => Ok(None),
        Some(None) => Err(FormatError::Malformed),
        Some(Some((a, b))) => match read_fixed(s, a, b) {
            Some(f) => Ok(Some(f)),
            None => Err(FormatError::Malformed),
        },
    }
}

/// An optional integer entry within `[lo, hi]` (see [`opt_int`]).
pub fn named_int(s: &Vec<char>, secs: &Vec<(usize, usize)>, w: &str, lo: i64, hi: i64) -> (r:
    Result<Option<i64>, FormatError>)
    requires
        ranges_within(secs@, 0, s@.len() as int),
        secs@.len() >= 1,
        -0x1_0000_0000 <= lo <= hi <= 0x1_0000_0000,
    ensures
        r is Err <==> opt_int(pieces(s@, secs@), w@, lo as int, hi as int) is None,
        r matches Ok(v) ==> opt_int(pieces(s@, secs@), w@, lo as int, hi as int) == Some(
            widen(v),
        ),
        r matches Ok(Some(x)) ==> lo <= x <= hi,
        r matches Err(e) ==> e == FormatError::Malformed,
{
    match find_named(s, secs, w) {
        None => Ok(None),
        Some(None) => Err(FormatError::Malformed),
        Some(Some((a, b))) => match read_int(s, a, b, lo, hi) {
            Some(x) => Ok(Some(x)),
            None => Err(FormatError::Malformed),
        },
    }
}

/// A flag written as a small integer (see [`flag_of`]).
pub fn read_flag(s: &Vec<char>, lo: usize, hi: usize) -> (r: Option<bool>)
    requires
        lo <= hi <= s@.len(),
    ensures
        r == flag_of(s@.subrange(lo as int, hi as int)),
{
    match read_int(s, lo, hi, -128, 127) {
        Some(x) => Some(x != 0),
        None => None,
    }
}

/// An optional flag entry (see [`opt_flag`]).
pub fn named_flag(s: &Vec<char>, secs: &Vec<(usize, usize)>, w: &str) -> (r: Result<
    Option<bool>,
    FormatError,
>)
    requires
        ranges_within(secs@, 0, s@.len() as int),
        secs@.len() >= 1,
    ensures
        r is Err <==> opt_flag(pieces(s@, secs@), w@) is None,
        r matches Ok(v) ==> opt_flag(pieces(s@, secs@), w@) == Some(v),
        r matches Err(e) ==> e == FormatError::Malformed,
{
    match find_named(s, secs, w) {
        None => Ok(None),
        Some(None) => Err(FormatError::Malformed),
        Some(Some((a, b))) => match read_flag(s, a, b) {
            Some(x) => Ok(Some(x)),
            None => Err(FormatError::Malformed),
        },
    }
}

/// Range of the head's value.
pub fn head_range(s: &Vec<char>, secs: &Vec<(usize, usize)>) -> (r: Result<
    (usize, usize),
    FormatError,
>)
    requires
        ranges_within(secs@, 0, s@.len() as int),
        secs@.len() >= 1,
    ensures
        r is Err <==> head_value(pieces(s@, secs@)) is None,
        r matches Ok(p) ==> p.0 <= p.1 <= s@.len() && head_value(pieces(s@, secs@)) == Some(
            s@.subrange(p.0 as int, p.1 as int),
        ),
        r matches Err(e) ==> e == FormatError::Malformed,
{
    let (a, b) = secs[0];
    match value_range(s, a, b) {
        Some(p) => Ok(p),
        None => Err(FormatError::Malformed),
    }
}

/// Characters that the text of a number may hold.
pub open spec fn numeric_char(c: char) -> bool {
    is_digit(c) || c == '-' || c == '.'
}

pub open spec fn numeric_text(s: Seq<char>) -> bool {
    forall|i: int| 0 <= i < s.len() ==> numeric_char(#[trigger] s[i])
}

pub proof fn lemma_numeric_free(s: Seq<char>, c: char)
    requires
        numeric_text(s),
        !numeric_char(c),
    ensures
        free_of(s, c),
{
    assert forall|i: int| 0 <= i < s.len() implies s[i] != c by {
        assert(numeric_char(s[i]));
    }
}

pub proof fn lemma_fixed_numeric(m: int)
    ensures
        numeric_text(fixed_str(m)),
{
    if m != 0 {
        let a: int = if m < 0 {
            -m
        } else {
            m
        };
        lemma_nat_str((a / 1_000_000) as nat);
        lemma_padded_str((a % 1_000_000) as nat, 6);
        let w = nat_str((a / 1_000_000) as nat);
        let f = padded_str((a % 1_000_000) as nat, 6);
        let sg: Seq<char> = if m < 0 {
            seq!['-']
        } else {
            Seq::empty()
        };
        let t = fixed_str(m);
        assert(t =~= sg + w + seq!['.'] + f);
        assert forall|i: int| 0 <= i < t.len() implies numeric_char(#[trigger] t[i]) by {
            if i < sg.len() {
            } else if i < sg.len() + w.len() {
                assert(t[i] == w[i - sg.len()]);
            } else if i == sg.len() + w.len() {
            } else {
                assert(t[i] == f[i - sg.len() - w.len() - 1]);
            }
        }
    }
}

pub proof fn lemma_int_numeric(i: int)
    ensures
        numeric_text(int_str(i)),
{
    if i < 0 {
        lemma_nat_str((-i) as nat);
        let w = nat_str((-i) as nat);
        let t = int_str(i);
        assert forall|j: int| 0 <= j < t.len() implies numeric_char(#[trigger] t[j]) by {
            if j > 0 {
                assert(t[j] == w[j - 1]);
            }
        }
    } else {
        lemma_nat_str(i as nat);
    }
}

pub proof fn lemma_flag_numeric(b: bool)
    ensures
        numeric_text(flag_str(b)),
        flag_of(flag_str(b)) == Some(b),
{
    let t = flag_str(b);
    lemma_parse_int_str(if b {
        1
    } else {
        0
    });
    reveal_with_fuel(nat_str, 2);
    assert(t =~= int_str(if b {
        1int
    } else {
        0int
    }));
}

/// An entry `name=v` reads back as name `name` and value `v`.
pub proof fn lemma_entry(name: Seq<char>, v: Seq<char>)
    requires
        free_of(name, '='),
        free_of(v, '='),
    ensures
        entry_name(entry_str(name, v)) == name,
        entry_value(entry_str(name, v)) == Some(v),
{
    lemma_split_free(name, '=');
    lemma_split_sep(name, v, '=');
}

pub proof fn lemma_entry_free(name: Seq<char>, v: Seq<char>, c: char)
    requires
        free_of(name, c),
        free_of(v, c),
        c != '=',
    ensures
        free_of(entry_str(name, v), c),
{
    let t = entry_str(name, v);
    assert forall|i: int| 0 <= i < t.len() implies t[i] != c by {
        if i < name.len() {
            assert(t[i] == name[i]);
        } else if i > name.len() {
            assert(t[i] == v[i - name.len() - 1]);
        }
    }
}

pub proof fn lemma_fixed_round(m: int)
    requires
        -FIXED_LIMIT < m < FIXED_LIMIT,
    ensures
        numeric_text(fixed_str(m)),
        parse_fixed(fixed_str(m)) == Some(m),
{
    lemma_fixed_numeric(m);
    lemma_parse_fixed_str(m);
}

} // verus!
