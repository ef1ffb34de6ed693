//! Comma-separated lists of numbers, read leniently (pieces that do not parse
//! are dropped), and the pair and colour values built on them.
use vstd::prelude::*;

use crate::codec::{
    Fixed, fixed_str, free_of, int_str, lemma_split_free, lemma_split_len, lemma_split_sep,
    parse_fixed, parse_int_within, pieces, push_fixed, push_int, ranges_within, read_fixed,
    read_int, split, split_ranges,
};
use crate::entries::{
    FormatError, Part, entry_name, entry_str, entry_value, head_range, head_value, last_named,
    numeric_char, opt_int, value_range,
};
use crate::fields::{
    lemma_append_opt, lemma_fixed_text, lemma_head, lemma_int_text, narrow32, named_i32,
    opt_entry, opt_int_str, push_opt_int,
};
use crate::text::{chars_of, push_str, string_of};

verus! {

/// The pieces that spell integers within `[lo, hi]`, in order.
pub open spec fn lenient_ints(ps: Seq<Seq<char>>, lo: int, hi: int) -> Seq<int>
    decreases ps.len(),
{
    if ps.len() == 0 {
        Seq::empty()
    } else {
        let r = lenient_ints(ps.drop_last(), lo, hi);
        match parse_int_within(ps.last(), lo, hi) {
            Some(x) => r.push(x),
            None => r,
        }
    }
}

/// The pieces that spell decimals, in order.
pub open spec fn lenient_fixeds(ps: Seq<Seq<char>>) -> Seq<Fixed>
    decreases ps.len(),
{
    if ps.len() == 0 {
        Seq::empty()
    } else {
        let r = lenient_fixeds(ps.drop_last());
        match parse_fixed(ps.last()) {
            Some(m) => r.push(Fixed { micros: m as i64 }),
            None => r,
        }
    }
}

/// Integers joined by commas.
pub open spec fn ints_text(xs: Seq<int>) -> Seq<char>
    decreases xs.len(),
{
    if xs.len() == 0 {
        Seq::empty()
    } else if xs.len() == 1 {
        int_str(xs[0])
    } else {
        ints_text(xs.drop_last()) + seq![','] + int_str(xs.last())
    }
}

pub open spec fn ints_of_i32(v: Seq<i32>) -> Seq<int> {
    v.map_values(|x: i32| x as int)
}

pub open spec fn ints_of_i8(v: Seq<i8>) -> Seq<int> {
    v.map_values(|x: i8| x as int)
}

pub open spec fn ints_of_u8(v: Seq<u8>) -> Seq<int> {
    v.map_values(|x: u8| x as int)
}

/// Reads the integers within `[min, max]` among the comma-separated pieces of
/// `s[lo..hi]`.
pub fn read_int_list(s: &Vec<char>, lo: usize, hi: usize, min: i64, max: i64) -> (r: Vec<i64>)
    requires
        lo <= hi <= s@.len(),
        -0x1_0000_0000 <= min <= max <= 0x1_0000_0000,
    ensures
        r@.map_values(|x: i64| x as int) == lenient_ints(
            split(s@.subrange(lo as int, hi as int), ','),
            min as int,
            max as int,
        ),
        forall|i: int| 0 <= i < r@.len() ==> min <= #[trigger] r@[i] <= max,
{
    let ps = split_ranges(s, lo, hi, ',');
    let ghost all = pieces(s@, ps@);
    let mut r: Vec<i64> = Vec::new();
    let mut k: usize = 0;
    while k < ps.len()
        invariant
            0 <= k <= ps@.len(),
            all == pieces(s@, ps@),
            ranges_within(ps@, lo as int, hi as int),
            hi <= s@.len(),
            -0x1_0000_0000 <= min <= max <= 0x1_0000_0000,
            r@.map_values(|x: i64| x as int) == lenient_ints(all.take(k as int), min as int, max as int),
            forall|i: int| 0 <= i < r@.len() ==> min <= #[trigger] r@[i] <= max,
        decreases ps@.len() - k,
    {
        let (a, b) = ps[k];
        let ghost t = all.take(k + 1);
        proof {
            assert(t.drop_last() =~= all.take(k as int));
            assert(t.last() == s@.subrange(a as int, b as int));
        }
        match read_int(s, a, b, min, max) {
            Some(x) => {
                let ghost before = r@;
                r.push(x);
                assert(r@.map_values(|x: i64| x as int) =~= before.map_values(|x: i64| x as int).push(
                    x as int,
                ));
            },
            None => {},
        }
        k = k + 1;
    }
    assert(all.take(ps@.len() as int) =~= all);
    r
}

/// Reads the decimals among the comma-separated pieces of `s[lo..hi]`.
pub fn read_fixed_list(s: &Vec<char>, lo: usize, hi: usize) -> (r: Vec<Fixed>)
    requires
        lo <= hi <= s@.len(),
    ensures
        r@ == lenient_fixeds(split(s@.subrange(lo as int, hi as int), ',')),
        forall|i: int| 0 <= i < r@.len() ==> (#[trigger] r@[i]).wf(),
{
    let ps = split_ranges(s, lo, hi, ',');
    let ghost all = pieces(s@, ps@);
    let mut r: Vec<Fixed> = Vec::new();
    let mut k: usize = 0;
    while k < ps.len()
        invariant
            0 <= k <= ps@.len(),
            all == pieces(s@, ps@),
            ranges_within(ps@, lo as int, hi as int),
            hi <= s@.len(),
            r@ == lenient_fixeds(all.take(k as int)),
            forall|i: int| 0 <= i < r@.len() ==> (#[trigger] r@[i]).wf(),
        decreases ps@.len() - k,
    {
        let (a, b) = ps[k];
        let ghost t = all.take(k + 1);
        proof {
            assert(t.drop_last() =~= all.take(k as int));
            assert(t.last() == s@.subrange(a as int, b as int));
        }
        match read_fixed(s, a, b) {
            Some(x) => {
                r.push(x);
            },
            None => {},
        }
        k = k + 1;
    }
    assert(all.take(ps@.len() as int) =~= all);
    r
}

/// The integers of a lenient list that fit an `i32`.
pub fn read_i32_list(s: &Vec<char>, lo: usize, hi: usize) -> (r: Vec<i32>)
    requires
        lo <= hi <= s@.len(),
    ensures
        ints_of_i32(r@) == lenient_ints(
            split(s@.subrange(lo as int, hi as int), ','),
            i32::MIN as int,
            i32::MAX as int,
        ),
{
    let v = read_int_list(s, lo, hi, i32::MIN as i64, i32::MAX as i64);
    let mut r: Vec<i32> = Vec::new();
    let mut k: usize = 0;
    while k < v.len()
        invariant
            0 <= k <= v@.len(),
            forall|i: int| 0 <= i < v@.len() ==> i32::MIN <= #[trigger] v@[i] <= i32::MAX,
            r@.len() == k,
            forall|i: int| 0 <= i < k ==> #[trigger] r@[i] as int == v@[i] as int,
        decreases v@.len() - k,
    {
        r.push(v[k] as i32);
        k = k + 1;
    }
    assert(ints_of_i32(r@) =~= v@.map_values(|x: i64| x as int));
    r
}

/// The integers of a lenient list that fit an `i8`.
pub fn read_i8_list(s: &Vec<char>, lo: usize, hi: usize) -> (r: Vec<i8>)
    requires
        lo <= hi <= s@.len(),
    ensures
        ints_of_i8(r@) == lenient_ints(split(s@.subrange(lo as int, hi as int), ','), -128, 127),
{
    let v = read_int_list(s, lo, hi, -128, 127);
    let mut r: Vec<i8> = Vec::new();
    let mut k: usize = 0;
    while k < v.len()
        invariant
            0 <= k <= v@.len(),
            forall|i: int| 0 <= i < v@.len() ==> -128 <= #[trigger] v@[i] <= 127,
            r@.len() == k,
            forall|i: int| 0 <= i < k ==> #[trigger] r@[i] as int == v@[i] as int,
        decreases v@.len() - k,
    {
        r.push(v[k] as i8);
        k = k + 1;
    }
    assert(ints_of_i8(r@) =~= v@.map_values(|x: i64| x as int));
    r
}

/// The integers of a lenient list that fit a `u8`.
pub fn read_u8_list(s: &Vec<char>, lo: usize, hi: usize) -> (r: Vec<u8>)
    requires
        lo <= hi <= s@.len(),
    ensures
        ints_of_u8(r@) == lenient_ints(split(s@.subrange(lo as int, hi as int), ','), 0, 255),
{
    let v = read_int_list(s, lo, hi, 0, 255);
    let mut r: Vec<u8> = Vec::new();
    let mut k: usize = 0;
    while k < v.len()
        invariant
            0 <= k <= v@.len(),
            forall|i: int| 0 <= i < v@.len() ==> 0 <= #[trigger] v@[i] <= 255,
            r@.len() == k,
            forall|i: int| 0 <= i < k ==> #[trigger] r@[i] as int == v@[i] as int,
        decreases v@.len() - k,
    {
        r.push(v[k] as u8);
        k = k + 1;
    }
    assert(ints_of_u8(r@) =~= v@.map_values(|x: i64| x as int));
    r
}

/// Appends integers joined by commas.
pub fn push_int_list(out: &mut Vec<char>, xs: &Vec<i64>)
    ensures
        final(out)@ == old(out)@ + ints_text(xs@.map_values(|x: i64| x as int)),
{
    let ghost m = xs@.map_values(|x: i64| x as int);
    let mut k: usize = 0;
    while k < xs.len()
        invariant
            0 <= k <= xs@.len(),
            m == xs@.map_values(|x: i64| x as int),
            out@ == old(out)@ + ints_text(m.take(k as int)),
        decreases xs@.len() - k,
    {
        let ghost before = out@;
        if k > 0 {
            out.push(',');
        }
        push_int(out, xs[k]);
        proof {
            let t = m.take(k + 1);
            assert(t.drop_last() =~= m.take(k as int));
            if k == 0 {
                assert(m.take(0) =~= Seq::<int>::empty());
                assert(out@ =~= old(out)@ + ints_text(t));
            } else {
                assert(out@ =~= old(out)@ + ints_text(t));
            }
        }
        k = k + 1;
    }
    assert(m.take(xs@.len() as int) =~= m);
}

pub fn widen_i32s(v: &Vec<i32>) -> (r: Vec<i64>)
    ensures
        r@.map_values(|x: i64| x as int) == ints_of_i32(v@),
{
    let mut r: Vec<i64> = Vec::new();
    let mut k: usize = 0;
    while k < v.len()
        invariant
            0 <= k <= v@.len(),
            r@.len() == k,
            forall|i: int| 0 <= i < k ==> #[trigger] r@[i] as int == v@[i] as int,
        decreases v@.len() - k,
    {
        r.push(v[k] as i64);
        k = k + 1;
    }
    assert(r@.map_values(|x: i64| x as int) =~= ints_of_i32(v@));
    r
}

pub fn widen_i8s(v: &Vec<i8>) -> (r: Vec<i64>)
    ensures
        r@.map_values(|x: i64| x as int) == ints_of_i8(v@),
{
    let mut r: Vec<i64> = Vec::new();
    let mut k: usize = 0;
    while k < v.len()
        invariant
            0 <= k <= v@.len(),
            r@.len() == k,
            forall|i: int| 0 <= i < k ==> #[trigger] r@[i] as int == v@[i] as int,
        decreases v@.len() - k,
    {
        r.push(v[k] as i64);
        k = k + 1;
    }
    assert(r@.map_values(|x: i64| x as int) =~= ints_of_i8(v@));
    r
}

pub fn widen_u8s(v: &Vec<u8>) -> (r: Vec<i64>)
    ensures
        r@.map_values(|x: i64| x as int) == ints_of_u8(v@),
{
    let mut r: Vec<i64> = Vec::new();
    let mut k: usize = 0;
    while k < v.len()
        invariant
            0 <= k <= v@.len(),
            r@.len() == k,
            forall|i: int| 0 <= i < k ==> #[trigger] r@[i] as int == v@[i] as int,
        decreases v@.len() - k,
    {
        r.push(v[k] as i64);
        k = k + 1;
    }
    assert(r@.map_values(|x: i64| x as int) =~= ints_of_u8(v@));
    r
}

/// Reading a joined list back gives the list, when every member lies in the
/// range that is read.
pub proof fn lemma_int_list_round_trip(xs: Seq<int>, lo: int, hi: int)
    requires
        forall|i: int| 0 <= i < xs.len() ==> lo <= #[trigger] xs[i] <= hi,
    ensures
        lenient_ints(split(ints_text(xs), ','), lo, hi) == xs,
        xs.len() > 0 ==> split(ints_text(xs), ',').len() == xs.len(),
    decreases xs.len(),
{
    reveal_with_fuel(lenient_ints, 2);
    if xs.len() == 0 {
        assert(split(Seq::<char>::empty(), ',') =~= seq![Seq::<char>::empty()]);
        assert(seq![Seq::<char>::empty()].drop_last() =~= Seq::<Seq<char>>::empty());
        assert(xs =~= Seq::<int>::empty());
    } else if xs.len() == 1 {
        assert(lo <= xs[0] <= hi);
        lemma_int_text(xs[0]);
        lemma_split_free(int_str(xs[0]), ',');
        assert(seq![int_str(xs[0])].drop_last() =~= Seq::<Seq<char>>::empty());
        assert(Seq::<int>::empty().push(xs[0]) =~= xs);
    } else {
        let ys = xs.drop_last();
        assert forall|i: int| 0 <= i < ys.len() implies lo <= #[trigger] ys[i] <= hi by {
            assert(ys[i] == xs[i]);
        }
        lemma_int_list_round_trip(ys, lo, hi);
        lemma_int_text(xs.last());
        lemma_split_sep(ints_text(ys), int_str(xs.last()), ',');
        let p = split(ints_text(ys), ',').push(int_str(xs.last()));
        assert(p.drop_last() =~= split(ints_text(ys), ','));
        assert(lo <= xs[xs.len() - 1] <= hi);
        assert(ys.push(xs.last()) =~= xs);
    }
}

/// Two decimals: `1.000000,-2.500000`.
#[derive(Clone, Copy, Debug, PartialEq)]
pub struct DoublePair(pub Fixed, pub Fixed);

impl DoublePair {
    pub open spec fn wf(self) -> bool {
        self.0.wf() && self.1.wf()
    }

    pub open spec fn text(self) -> Seq<char> {
        fixed_str(self.0.micros as int) + seq![','] + fixed_str(self.1.micros as int)
    }

    /// The first two decimals of a lenient list.
    pub open spec fn parse(s: Seq<char>) -> Option<DoublePair> {
        let v = lenient_fixeds(split(s, ','));
        if v.len() >= 2 {
            Some(DoublePair(v[0], v[1]))
        } else {
            None
        }
    }

    pub fn push_text(&self, out: &mut Vec<char>)
        requires
            self.wf(),
        ensures
            final(out)@ == old(out)@ + self.text(),
    {
        push_fixed(out, self.0);
        out.push(',');
        push_fixed(out, self.1);
        assert(final(out)@ =~= old(out)@ + self.text());
    }

    pub fn to_string(&self) -> (r: String)
        requires
            self.wf(),
        ensures
            r@ == self.text(),
    {
        let mut out = Vec::new();
        self.push_text(&mut out);
        string_of(&out)
    }

    /// Reads the pair; fewer than two decimals is [`FormatError::Missing`].
    pub fn read(s: &Vec<char>, lo: usize, hi: usize) -> (r: Result<DoublePair, FormatError>)
        requires
            lo <= hi <= s@.len(),
        ensures
            r is Err <==> Self::parse(s@.subrange(lo as int, hi as int)) is None,
            r matches Ok(d) ==> d.wf() && Self::parse(s@.subrange(lo as int, hi as int)) == Some(d),
            r matches Err(e) ==> e == FormatError::Missing(Part::Values),
    {
        let v = read_fixed_list(s, lo, hi);
        if v.len() >= 2 {
            Ok(DoublePair(v[0], v[1]))
        } else {
            Err(FormatError::Missing(Part::Values))
        }
    }

    pub fn from_str(text: &str) -> (r: Result<DoublePair, FormatError>)
        ensures
            r is Err <==> Self::parse(text@) is None,
            r matches Ok(d) ==> d.wf() && Self::parse(text@) == Some(d),
            r matches Err(e) ==> e == FormatError::Missing(Part::Values),
    {
        let s = chars_of(text);
        assert(s@.subrange(0, s@.len() as int) =~= s@);
        Self::read(&s, 0, s.len())
    }
}

pub proof fn lemma_double_pair_round_trip(d: DoublePair)
    requires
        d.wf(),
    ensures
        DoublePair::parse(d.text()) == Some(d),
{
    reveal_with_fuel(lenient_fixeds, 3);
    let a = fixed_str(d.0.micros as int);
    let b = fixed_str(d.1.micros as int);
    lemma_fixed_text(d.0.micros as int);
    lemma_fixed_text(d.1.micros as int);
    lemma_split_free(a, ',');
    lemma_split_sep(a, b, ',');
    let ps = seq![a, b];
    assert(split(d.text(), ',') =~= ps);
    assert(ps.drop_last() =~= seq![a]);
    assert(seq![a].drop_last() =~= Seq::<Seq<char>>::empty());
}

/// Two integers: `3,-4`.
#[derive(Clone, Copy, Debug, PartialEq)]
pub struct I32Pair(pub i32, pub i32);

impl I32Pair {
    pub open spec fn text(self) -> Seq<char> {
        int_str(self.0 as int) + seq![','] + int_str(self.1 as int)
    }

    /// The first two integers of a lenient list.
    pub open spec fn parse(s: Seq<char>) -> Option<I32Pair> {
        let v = lenient_ints(split(s, ','), i32::MIN as int, i32::MAX as int);
        if v.len() >= 2 {
            Some(I32Pair(v[0] as i32, v[1] as i32))
        } else {
            None
        }
    }

    pub fn push_text(&self, out: &mut Vec<char>)
        ensures
            final(out)@ == old(out)@ + self.text(),
    {
        push_int(out, self.0 as i64);
        out.push(',');
        push_int(out, self.1 as i64);
        assert(final(out)@ =~= old(out)@ + self.text());
    }

    pub fn to_string(&self) -> (r: String)
        ensures
            r@ == self.text(),
    {
        let mut out = Vec::new();
        self.push_text(&mut out);
        string_of(&out)
    }

    /// Reads the pair; fewer than two integers is [`FormatError::Missing`].
    pub fn read(s: &Vec<char>, lo: usize, hi: usize) -> (r: Result<I32Pair, FormatError>)
        requires
            lo <= hi <= s@.len(),
        ensures
            r is Err <==> Self::parse(s@.subrange(lo as int, hi as int)) is None,
            r matches Ok(d) ==> Self::parse(s@.subrange(lo as int, hi as int)) == Some(d),
            r matches Err(e) ==> e == FormatError::Missing(Part::Values),
    {
        let v = read_i32_list(s, lo, hi);
        if v.len() >= 2 {
            assert(ints_of_i32(v@)[0] == v@[0] as int);
            assert(ints_of_i32(v@)[1] == v@[1] as int);
            Ok(I32Pair(v[0], v[1]))
        } else {
            Err(FormatError::Missing(Part::Values))
        }
    }

    pub fn from_str(text: &str) -> (r: Result<I32Pair, FormatError>)
        ensures
            r is Err <==> Self::parse(text@) is None,
            r matches Ok(d) ==> Self::parse(text@) == Some(d),
            r matches Err(e) ==> e == FormatError::Missing(Part::Values),
    {
        let s = chars_of(text);
        assert(s@.subrange(0, s@.len() as int) =~= s@);
        Self::read(&s, 0, s.len())
    }
}

pub proof fn lemma_i32_pair_round_trip(d: I32Pair)
    ensures
        I32Pair::parse(d.text()) == Some(d),
{
    reveal_with_fuel(ints_text, 2);
    let xs = seq![d.0 as int, d.1 as int];
    assert(xs.drop_last() =~= seq![d.0 as int]);
    assert(d.text() =~= ints_text(xs));
    lemma_int_list_round_trip(xs, i32::MIN as int, i32::MAX as int);
}

/// A sprite tint: `color=1.000000,0.500000,0.0`.
#[derive(Clone, Copy, Debug, PartialEq)]
pub struct ColorData {
    pub red: Fixed,
    pub green: Fixed,
    pub blue: Fixed,
}

impl ColorData {
    pub open spec fn wf(self) -> bool {
        self.red.wf() && self.green.wf() && self.blue.wf()
    }

    pub open spec fn text(self) -> Seq<char> {
        "color="@ + fixed_str(self.red.micros as int) + seq![','] + fixed_str(
            self.green.micros as int,
        ) + seq![','] + fixed_str(self.blue.micros as int)
    }

    /// The first three decimals of the value's lenient list.
    pub open spec fn parse(line: Seq<char>) -> Option<ColorData> {
        match entry_value(line) {
            Some(v) => {
                let c = lenient_fixeds(split(v, ','));
                if c.len() >= 3 {
                    Some(ColorData { red: c[0], green: c[1], blue: c[2] })
                } else {
                    None
                }
            },
            None => None,
        }
    }

    pub fn push_text(&self, out: &mut Vec<char>)
        requires
            self.wf(),
        ensures
            final(out)@ == old(out)@ + self.text(),
    {
        push_str(out, "color=");
        push_fixed(out, self.red);
        out.push(',');
        push_fixed(out, self.green);
        out.push(',');
        push_fixed(out, self.blue);
        assert(final(out)@ =~= old(out)@ + self.text());
    }

    pub fn to_string(&self) -> (r: String)
        requires
            self.wf(),
        ensures
            r@ == self.text(),
    {
        let mut out = Vec::new();
        self.push_text(&mut out);
        string_of(&out)
    }

    /// Reads the colour; fewer than three decimals is
    /// [`FormatError::Missing`].
    pub fn read(s: &Vec<char>, lo: usize, hi: usize) -> (r: Result<ColorData, FormatError>)
        requires
            lo <= hi <= s@.len(),
        ensures
            r is Err <==> Self::parse(s@.subrange(lo as int, hi as int)) is None,
            r matches Ok(d) ==> d.wf() && Self::parse(s@.subrange(lo as int, hi as int)) == Some(d),
    {
        let (a, b) = match value_range(s, lo, hi) {
            Some(p) => p,
            None => return Err(FormatError::Malformed),
        };
        let v = read_fixed_list(s, a, b);
        if v.len() >= 3 {
            Ok(ColorData { red: v[0], green: v[1], blue: v[2] })
        } else {
            Err(FormatError::Missing(Part::Values))
        }
    }

    pub fn from_str(line: &str) -> (r: Result<ColorData, FormatError>)
        ensures
            r is Err <==> Self::parse(line@) is None,
            r matches Ok(d) ==> d.wf() && Self::parse(line@) == Some(d),
    {
        let s = chars_of(line);
        assert(s@.subrange(0, s@.len() as int) =~= s@);
        Self::read(&s, 0, s.len())
    }
}

/// How likely an object is to be placed on a new map, with the biomes it is
/// placed in: `mapChance=0.500000#biomes_0,1,2`.
#[derive(Clone, Debug, PartialEq)]
pub struct MapChanceData {
    pub mapChance: Fixed,
    pub biomes: Option<Vec<u8>>,
}

pub open spec fn biomes_view(b: Option<Vec<u8>>) -> Option<Seq<int>> {
    match b {
        Some(v) => Some(ints_of_u8(v@)),
        None => None,
    }
}

impl MapChanceData {
    pub open spec fn wf(self) -> bool {
        self.mapChance.wf()
    }

    pub open spec fn view(self) -> (Fixed, Option<Seq<int>>) {
        (self.mapChance, biomes_view(self.biomes))
    }

    pub open spec fn text(self) -> Seq<char> {
        entry_str("mapChance"@, fixed_str(self.mapChance.micros as int)) + match self.biomes {
            Some(b) => "#biomes_"@ + ints_text(ints_of_u8(b@)),
            None => Seq::empty(),
        }
    }

    /// The chance, and the biome list after the seven characters that open
    /// the second `#` piece, when there is one.
    pub open spec fn parse(line: Seq<char>) -> Option<(Fixed, Option<Seq<int>>)> {
        let secs = split(line, '#');
        match head_value(secs) {
            Some(h) => match parse_fixed(h) {
                Some(m) => if secs.len() < 2 {
                    Some((Fixed { micros: m as i64 }, None))
                } else if secs[1].len() >= 7 {
                    Some(
                        (
                            Fixed { micros: m as i64 },
                            Some(
                                lenient_ints(
                                    split(secs[1].subrange(7, secs[1].len() as int), ','),
                                    0,
                                    255,
                                ),
                            ),
                        ),
                    )
                } else {
                    None
                },
                None => None,
            },
            None => None,
        }
    }

    pub fn push_text(&self, out: &mut Vec<char>)
        requires
            self.wf(),
        ensures
            final(out)@ == old(out)@ + self.text(),
    {
        push_str(out, "mapChance=");
        push_fixed(out, self.mapChance);
        proof {
            reveal_strlit("mapChance=");
            reveal_strlit("mapChance");
        }
        match &self.biomes {
            Some(b) => {
                let ghost mid = out@;
                push_str(out, "#biomes_");
                let w = widen_u8s(b);
                push_int_list(out, &w);
                assert(final(out)@ =~= old(out)@ + self.text());
            },
            None => {
                assert(final(out)@ =~= old(out)@ + self.text());
            },
        }
    }

    pub fn to_string(&self) -> (r: String)
        requires
            self.wf(),
        ensures
            r@ == self.text(),
    {
        let mut out = Vec::new();
        self.push_text(&mut out);
        string_of(&out)
    }

    pub fn read(s: &Vec<char>, lo: usize, hi: usize) -> (r: Result<MapChanceData, FormatError>)
        requires
            lo <= hi <= s@.len(),
        ensures
            r is Err <==> Self::parse(s@.subrange(lo as int, hi as int)) is None,
            r matches Ok(d) ==> d.wf() && Self::parse(s@.subrange(lo as int, hi as int)) == Some(
                d.view(),
            ),
    {
        let secs = split_ranges(s, lo, hi, '#');
        proof {
            lemma_split_len(s@.subrange(lo as int, hi as int), '#');
        }
        let (a, b) = match head_range(s, &secs) {
            Ok(p) => p,
            Err(e) => return Err(e),
        };
        let m = match read_fixed(s, a, b) {
            Some(m) => m,
            None => return Err(FormatError::Malformed),
        };
        if secs.len() < 2 {
            return Ok(MapChanceData { mapChance: m, biomes: None });
        }
        let (c, d) = secs[1];
        assert(pieces(s@, secs@)[1] == s@.subrange(c as int, d as int));
        if d - c < 7 {
            return Err(FormatError::Malformed);
        }
        let biomes = read_u8_list(s, c + 7, d);
        assert(s@.subrange(c as int, d as int).subrange(7, d - c) =~= s@.subrange(c + 7, d as int));
        Ok(MapChanceData { mapChance: m, biomes: Some(biomes) })
    }

    pub fn from_str(line: &str) -> (r: Result<MapChanceData, FormatError>)
        ensures
            r is Err <==> Self::parse(line@) is None,
            r matches Ok(d) ==> d.wf() && Self::parse(line@) == Some(d.view()),
    {
        let s = chars_of(line);
        assert(s@.subrange(0, s@.len() as int) =~= s@);
        Self::read(&s, 0, s.len())
    }
}

pub proof fn lemma_map_chance_round_trip(d: MapChanceData)
    requires
        d.wf(),
    ensures
        MapChanceData::parse(d.text()) == Some(d.view()),
{
    reveal_strlit("mapChance");
    reveal_strlit("#biomes_");
    let f = fixed_str(d.mapChance.micros as int);
    lemma_fixed_text(d.mapChance.micros as int);
    assert(free_of("mapChance"@, '#'));
    assert(free_of("mapChance"@, '='));
    let h = entry_str("mapChance"@, f);
    lemma_head("mapChance"@, f, '#');
    match d.biomes {
        Some(b) => {
            let xs = ints_of_u8(b@);
            assert forall|i: int| 0 <= i < xs.len() implies 0 <= #[trigger] xs[i] <= 255 by {
                assert(xs[i] == b@[i] as int);
            }
            lemma_int_list_round_trip(xs, 0, 255);
            lemma_ints_text_free(xs, '#');
            let tail = "biomes_"@ + ints_text(xs);
            reveal_strlit("biomes_");
            assert(free_of(tail, '#')) by {
                assert forall|i: int| 0 <= i < tail.len() implies tail[i] != '#' by {
                    if i >= 7 {
                        assert(tail[i] == ints_text(xs)[i - 7]);
                    }
                }
            }
            lemma_split_sep(h, tail, '#');
            assert(d.text() =~= h + seq!['#'] + tail);
            let secs = split(d.text(), '#');
            assert(secs =~= seq![h, tail]);
            assert(tail.subrange(7, tail.len() as int) =~= ints_text(xs));
        },
        None => {
            assert(d.text() =~= h);
        },
    }
}

/// The joined text of integers holds no character but digits, signs and
/// commas.
pub proof fn lemma_ints_text_free(xs: Seq<int>, c: char)
    requires
        !numeric_char(c),
        c != ',',
    ensures
        free_of(ints_text(xs), c),
    decreases xs.len(),
{
    if xs.len() == 1 {
        lemma_int_text(xs[0]);
        crate::entries::lemma_int_numeric(xs[0]);
        crate::entries::lemma_numeric_free(int_str(xs[0]), c);
    } else if xs.len() > 1 {
        lemma_ints_text_free(xs.drop_last(), c);
        crate::entries::lemma_int_numeric(xs.last());
        crate::entries::lemma_numeric_free(int_str(xs.last()), c);
        let a = ints_text(xs.drop_last());
        let b = int_str(xs.last());
        let t = ints_text(xs);
        assert(t =~= a + seq![','] + b);
        assert forall|i: int| 0 <= i < t.len() implies t[i] != c by {
            if i < a.len() {
                assert(t[i] == a[i]);
            } else if i > a.len() {
                assert(t[i] == b[i - a.len() - 1]);
            }
        }
    }
}

/// A container slot position with optional vertical flag and parent sprite:
/// `slotPos=0.000000,10.000000,vert=0,parent=-1`.
#[derive(Clone, Copy, Debug, PartialEq)]
pub struct SlotPosData {
    pub slotPos: DoublePair,
    pub vert: Option<i32>,
    pub parent: Option<i32>,
}

impl SlotPosData {
    pub open spec fn wf(self) -> bool {
        self.slotPos.wf()
    }

    pub open spec fn text(self) -> Seq<char> {
        entry_str("slotPos"@, fixed_str(self.slotPos.0.micros as int)) + seq![','] + fixed_str(
            self.slotPos.1.micros as int,
        ) + opt_entry(',', "vert"@, opt_int_str(self.vert)) + opt_entry(
            ',',
            "parent"@,
            opt_int_str(self.parent),
        )
    }

    /// The position is the head's value and the second piece; named entries
    /// follow.
    pub open spec fn parse(line: Seq<char>) -> Option<SlotPosData> {
        let secs = split(line, ',');
        if secs.len() < 2 {
            None
        } else {
            match head_value(secs) {
                Some(x) => match (
                    parse_fixed(x),
                    parse_fixed(secs[1]),
                    opt_int(secs, "vert"@, i32::MIN as int, i32::MAX as int),
                    opt_int(secs, "parent"@, i32::MIN as int, i32::MAX as int),
                ) {
                    (Some(a), Some(b), Some(v), Some(p)) => Some(
                        SlotPosData {
                            slotPos: DoublePair(Fixed { micros: a as i64 }, Fixed { micros: b as i64 }),
                            vert: narrow32(v),
                            parent: narrow32(p),
                        },
                    ),
                    _ => None,
                },
                None => None,
            }
        }
    }

    pub fn push_text(&self, out: &mut Vec<char>)
        requires
            self.wf(),
        ensures
            final(out)@ == old(out)@ + self.text(),
    {
        push_str(out, "slotPos=");
        self.slotPos.push_text(out);
        push_opt_int(out, ',', "vert", self.vert);
        push_opt_int(out, ',', "parent", self.parent);
        proof {
            reveal_strlit("slotPos=");
            reveal_strlit("slotPos");
        }
        assert(final(out)@ =~= old(out)@ + self.text());
    }

    pub fn to_string(&self) -> (r: String)
        requires
            self.wf(),
        ensures
            r@ == self.text(),
    {
        let mut out = Vec::new();
        self.push_text(&mut out);
        string_of(&out)
    }

    pub fn read(s: &Vec<char>, lo: usize, hi: usize) -> (r: Result<SlotPosData, FormatError>)
        requires
            lo <= hi <= s@.len(),
        ensures
            r is Err <==> Self::parse(s@.subrange(lo as int, hi as int)) is None,
            r matches Ok(d) ==> d.wf() && Self::parse(s@.subrange(lo as int, hi as int)) == Some(d),
            split(s@.subrange(lo as int, hi as int), ',').len() < 2 ==> r == Err::<SlotPosData, FormatError>(FormatError::Missing(Part::Coordinate)),
    {
        let secs = split_ranges(s, lo, hi, ',');
        if secs.len() < 2 {
            return Err(FormatError::Missing(Part::Coordinate));
        }
        let (a, b) = match head_range(s, &secs) {
            Ok(p) => p,
            Err(e) => return Err(e),
        };
        let x = match read_fixed(s, a, b) {
            Some(x) => x,
            None => return Err(FormatError::Malformed),
        };
        let (c, d) = secs[1];
        assert(pieces(s@, secs@)[1] == s@.subrange(c as int, d as int));
        let y = match read_fixed(s, c, d) {
            Some(y) => y,
            None => return Err(FormatError::Malformed),
        };
        let v = match named_i32(s, &secs, "vert") {
            Ok(v) => v,
            Err(e) => return Err(e),
        };
        let p = match named_i32(s, &secs, "parent") {
            Ok(v) => v,
            Err(e) => return Err(e),
        };
        Ok(SlotPosData { slotPos: DoublePair(x, y), vert: v, parent: p })
    }

    pub fn from_str(line: &str) -> (r: Result<SlotPosData, FormatError>)
        ensures
            r is Err <==> Self::parse(line@) is None,
            r matches Ok(d) ==> d.wf() && Self::parse(line@) == Some(d),
    {
        let s = chars_of(line);
        assert(s@.subrange(0, s@.len() as int) =~= s@);
        Self::read(&s, 0, s.len())
    }
}

pub proof fn lemma_slot_pos_round_trip(d: SlotPosData)
    requires
        d.wf(),
    ensures
        SlotPosData::parse(d.text()) == Some(d),
{
    reveal_strlit("slotPos");
    reveal_strlit("vert");
    reveal_strlit("parent");
    let fx = fixed_str(d.slotPos.0.micros as int);
    let fy = fixed_str(d.slotPos.1.micros as int);
    lemma_fixed_text(d.slotPos.0.micros as int);
    lemma_fixed_text(d.slotPos.1.micros as int);
    crate::entries::lemma_fixed_numeric(d.slotPos.1.micros as int);
    let h = entry_str("slotPos"@, fx);
    lemma_head("slotPos"@, fx, ',');
    lemma_split_sep(h, fy, ',');
    lemma_split_free(fy, '=');
    let base = h + seq![','] + fy;
    let secs0 = split(base, ',');
    assert(secs0 =~= seq![h, fy]);
    assert(secs0.drop_last() =~= seq![h]);
    assert(entry_name(fy) == fy);
    assert(fy.len() > 0) by {
        if d.slotPos.1.micros != 0 {
            crate::codec::lemma_nat_str(0);
        }
    }
    assert(numeric_char(fy[0]));
    assert(fy != "vert"@) by {
        assert("vert"@[0] == 'v');
    }
    assert(fy != "parent"@) by {
        assert("parent"@[0] == 'p');
    }
    if let Some(x) = d.vert {
        lemma_int_text(x as int);
    }
    if let Some(x) = d.parent {
        lemma_int_text(x as int);
    }
    let o1 = opt_entry(',', "vert"@, opt_int_str(d.vert));
    lemma_append_opt(base, ',', "vert"@, opt_int_str(d.vert));
    lemma_append_opt(base + o1, ',', "parent"@, opt_int_str(d.parent));
    lemma_split_len(base + o1, ',');
    lemma_split_len(base, ',');
    assert(d.text() =~= base + o1 + opt_entry(',', "parent"@, opt_int_str(d.parent)));
    reveal_with_fuel(last_named, 2);
    assert(last_named(secs0, "vert"@) is None);
    assert(last_named(secs0, "parent"@) is None);
    let secs = split(d.text(), ',');
    assert(secs.len() >= 2);
    assert(secs[0] == h);
    assert(secs[1] == fy);
    assert(head_value(secs) == Some(fx));
    assert(opt_int(secs, "vert"@, i32::MIN as int, i32::MAX as int) == Some(
        crate::fields::widen32(d.vert),
    ));
    assert(opt_int(secs, "parent"@, i32::MIN as int, i32::MAX as int) == Some(
        crate::fields::widen32(d.parent),
    ));
}

/// Reading back the text of a colour gives the colour.
pub proof fn lemma_color_round_trip(c: ColorData)
    requires
        c.wf(),
    ensures
        ColorData::parse(c.text()) == Some(c),
        crate::entries::entry_name(c.text()) == "color"@,
{
    reveal_strlit("color=");
    reveal_strlit("color");
    reveal_with_fuel(lenient_fixeds, 4);
    let r = fixed_str(c.red.micros as int);
    let g = fixed_str(c.green.micros as int);
    let b = fixed_str(c.blue.micros as int);
    lemma_fixed_text(c.red.micros as int);
    lemma_fixed_text(c.green.micros as int);
    lemma_fixed_text(c.blue.micros as int);
    let v = r + seq![','] + g + seq![','] + b;
    assert(c.text() =~= entry_str("color"@, v));
    assert(free_of(v, '=')) by {
        assert forall|i: int| 0 <= i < v.len() implies v[i] != '=' by {
            if i < r.len() {
                assert(v[i] == r[i]);
            } else if i == r.len() {
            } else if i < r.len() + 1 + g.len() {
                assert(v[i] == g[i - r.len() - 1]);
            } else if i == r.len() + 1 + g.len() {
            } else {
                assert(v[i] == b[i - r.len() - 2 - g.len()]);
            }
        }
    }
    assert(free_of("color"@, '='));
    crate::entries::lemma_entry("color"@, v);
    lemma_split_free(r, ',');
    lemma_split_sep(r, g, ',');
    lemma_split_sep(r + seq![','] + g, b, ',');
    let ps = seq![r, g, b];
    assert(split(v, ',') =~= ps);
    assert(ps.drop_last() =~= seq![r, g]);
    assert(seq![r, g].drop_last() =~= seq![r]);
    assert(seq![r].drop_last() =~= Seq::<Seq<char>>::empty());
}

} // verus!
