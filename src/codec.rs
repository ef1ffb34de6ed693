//! Scalar text codec: decimal integers, fixed six-place decimals, `0`/`1`
//! flags and delimiter splitting, each with a specification over `Seq<char>`.
use vstd::prelude::*;

verus! {

/// The character for a decimal digit value.
pub open spec fn digit_char(d: int) -> char {
    if d == 0 {
        '0'
    } else if d == 1 {
        '1'
    } else if d == 2 {
        '2'
    } else if d == 3 {
        '3'
    } else if d == 4 {
        '4'
    } else if d == 5 {
        '5'
    } else if d == 6 {
        '6'
    } else if d == 7 {
        '7'
    } else if d == 8 {
        '8'
    } else {
        '9'
    }
}

pub open spec fn is_digit(c: char) -> bool {
    '0' <= c && c <= '9'
}

pub open spec fn digit_val(c: char) -> int {
    (c as int) - ('0' as int)
}

/// A non-empty run of ASCII digits.
pub open spec fn is_digits(s: Seq<char>) -> bool {
    s.len() > 0 && forall|i: int| 0 <= i < s.len() ==> is_digit(#[trigger] s[i])
}

/// The value of a run of digits, most significant first.
pub open spec fn digits_val(s: Seq<char>) -> nat
    decreases s.len(),
{
    if s.len() == 0 {
        0
    } else {
        (digits_val(s.drop_last()) * 10 + digit_val(s.last())) as nat
    }
}

/// Decimal text of a natural number, without leading zeros.
pub open spec fn nat_str(n: nat) -> Seq<char>
    decreases n,
{
    if n < 10 {
        seq![digit_char(n as int)]
    } else {
        nat_str(n / 10).push(digit_char((n % 10) as int))
    }
}

/// Decimal text of an integer: a `-` before the digits of a negative one.
pub open spec fn int_str(i: int) -> Seq<char> {
    if i < 0 {
        seq!['-'] + nat_str((-i) as nat)
    } else {
        nat_str(i as nat)
    }
}

/// Exactly `k` digits of `n`, zero-padded on the left.
pub open spec fn padded_str(n: nat, k: nat) -> Seq<char>
    decreases k,
{
    if k == 0 {
        Seq::empty()
    } else {
        padded_str(n / 10, (k - 1) as nat).push(digit_char((n % 10) as int))
    }
}

/// What an integer's text means: an optional sign, then digits.
pub open spec fn parse_int(s: Seq<char>) -> Option<int> {
    if s.len() > 0 && s[0] == '-' && is_digits(s.drop_first()) {
        Some(-(digits_val(s.drop_first()) as int))
    } else if s.len() > 0 && s[0] == '+' && is_digits(s.drop_first()) {
        Some(digits_val(s.drop_first()) as int)
    } else if is_digits(s) {
        Some(digits_val(s) as int)
    } else {
        None
    }
}

/// The integer that `s` spells, where it lies in `[lo, hi]`.
pub open spec fn parse_int_within(s: Seq<char>, lo: int, hi: int) -> Option<int> {
    match parse_int(s) {
        Some(v) => if lo <= v <= hi {
            Some(v)
        } else {
            None
        },
        None => None,
    }
}

pub proof fn lemma_digit_char(d: int)
    requires
        0 <= d < 10,
    ensures
        is_digit(digit_char(d)),
        digit_val(digit_char(d)) == d,
{
}

pub proof fn lemma_nat_str(n: nat)
    ensures
        is_digits(nat_str(n)),
        digits_val(nat_str(n)) == n,
    decreases n,
{
    if n < 10 {
        lemma_digit_char(n as int);
        assert(nat_str(n).drop_last() =~= Seq::<char>::empty());
        assert(nat_str(n).last() == digit_char(n as int));
        assert(digits_val(nat_str(n)) == digits_val(Seq::<char>::empty()) * 10 + digit_val(
            digit_char(n as int),
        ));
    } else {
        lemma_nat_str(n / 10);
        lemma_digit_char((n % 10) as int);
        let s = nat_str(n);
        assert(s.drop_last() =~= nat_str(n / 10));
        assert forall|i: int| 0 <= i < s.len() implies is_digit(#[trigger] s[i]) by {
            if i < s.len() - 1 {
                assert(s[i] == nat_str(n / 10)[i]);
            }
        }
        assert(s.last() == digit_char((n % 10) as int));
        assert(digits_val(s) == (n / 10) * 10 + n % 10);
    }
}

pub proof fn lemma_padded_str(n: nat, k: nat)
    ensures
        padded_str(n, k).len() == k,
        forall|i: int| 0 <= i < k ==> is_digit(#[trigger] padded_str(n, k)[i]),
        digits_val(padded_str(n, k)) == n % (pow10(k) as nat),
    decreases k,
{
    if k > 0 {
        let k1 = (k - 1) as nat;
        lemma_padded_str(n / 10, k1);
        lemma_digit_char((n % 10) as int);
        let s = padded_str(n, k);
        assert(s.drop_last() =~= padded_str(n / 10, k1));
        assert forall|i: int| 0 <= i < k implies is_digit(#[trigger] padded_str(n, k)[i]) by {
            if i < k - 1 {
                assert(s[i] == padded_str(n / 10, k1)[i]);
            }
        }
        lemma_pow10_pos(k1);
        lemma_mod_split(n, pow10(k1) as nat);
    }
}

pub open spec fn pow10(k: nat) -> int
    decreases k,
{
    if k == 0 {
        1
    } else {
        10 * pow10((k - 1) as nat)
    }
}

pub proof fn lemma_pow10_pos(k: nat)
    ensures
        pow10(k) > 0,
    decreases k,
{
    if k > 0 {
        lemma_pow10_pos((k - 1) as nat);
    }
}

proof fn lemma_mod_split(n: nat, p: nat)
    requires
        p > 0,
    ensures
        (n / 10 % p) * 10 + n % 10 == n % (10 * p),
{
    let q = n / 10;
    let r = n % 10;
    assert(n == q * 10 + r);
    let a = q / p;
    let b = q % p;
    assert(q == a * p + b) by (nonlinear_arith)
        requires
            p > 0,
            a == q / p,
            b == q % p,
    ;
    assert(n == a * (10 * p) + (b * 10 + r)) by (nonlinear_arith)
        requires
            n == q * 10 + r,
            q == a * p + b,
    ;
    assert(0 <= b * 10 + r < 10 * p) by (nonlinear_arith)
        requires
            0 <= b < p,
            0 <= r < 10,
    ;
    vstd::arithmetic::div_mod::lemma_fundamental_div_mod_converse(
        n as int,
        10 * p as int,
        a as int,
        (b * 10 + r) as int,
    );
}

pub proof fn lemma_parse_int_str(i: int)
    ensures
        parse_int(int_str(i)) == Some(i),
{
    if i < 0 {
        let d = nat_str((-i) as nat);
        lemma_nat_str((-i) as nat);
        assert((seq!['-'] + d).drop_first() =~= d);
    } else {
        lemma_nat_str(i as nat);
        let d = nat_str(i as nat);
        assert(is_digit(d[0]));
    }
}

/// Appends the decimal text of `n`.
pub fn push_nat(out: &mut Vec<char>, n: u64)
    ensures
        final(out)@ == old(out)@ + nat_str(n as nat),
    decreases n,
{
    if n >= 10 {
        push_nat(out, n / 10);
    }
    let c = digit_of(n % 10);
    out.push(c);
    proof {
        if n >= 10 {
            assert(old(out)@ + nat_str(n as nat) =~= old(out)@ + nat_str((n / 10) as nat) + seq![c]);
        } else {
            assert(n % 10 == n);
        }
    }
}

/// Appends the decimal text of `i`.
pub fn push_int(out: &mut Vec<char>, i: i64)
    ensures
        final(out)@ == old(out)@ + int_str(i as int),
{
    if i < 0 {
        out.push('-');
        let m: u64 = (0i128 - i as i128) as u64;
        push_nat(out, m);
        assert(old(out)@ + int_str(i as int) =~= old(out)@ + seq!['-'] + nat_str(m as nat));
    } else {
        push_nat(out, i as u64);
    }
}

/// Appends `n` as exactly `k` digits, zero-padded.
pub fn push_padded(out: &mut Vec<char>, n: u64, k: u64)
    ensures
        final(out)@ == old(out)@ + padded_str(n as nat, k as nat),
    decreases k,
{
    if k > 0 {
        push_padded(out, n / 10, k - 1);
        let c = digit_of(n % 10);
        out.push(c);
        assert(old(out)@ + padded_str(n as nat, k as nat) =~= old(out)@ + padded_str(
            (n / 10) as nat,
            (k - 1) as nat,
        ) + seq![c]);
    } else {
        assert(old(out)@ + padded_str(n as nat, k as nat) =~= old(out)@);
    }
}

fn digit_of(d: u64) -> (c: char)
    requires
        d < 10,
    ensures
        c == digit_char(d as int),
{
    if d == 0 {
        '0'
    } else if d == 1 {
        '1'
    } else if d == 2 {
        '2'
    } else if d == 3 {
        '3'
    } else if d == 4 {
        '4'
    } else if d == 5 {
        '5'
    } else if d == 6 {
        '6'
    } else if d == 7 {
        '7'
    } else if d == 8 {
        '8'
    } else {
        '9'
    }
}

/// Upper bound below which digit runs are read exactly.
pub const DIGITS_CAP: u64 = 0x1_0000_0000_0000;

proof fn lemma_digits_val_grows(s: Seq<char>, c: char)
    requires
        is_digit(c),
    ensures
        digits_val(s.push(c)) >= digits_val(s),
        digits_val(s.push(c)) == digits_val(s) * 10 + digit_val(c),
{
    assert(s.push(c).drop_last() =~= s);
}

proof fn lemma_digits_val_mono(s: Seq<char>, k: nat)
    requires
        is_digits(s),
        k <= s.len(),
    ensures
        digits_val(s.take(k as int)) <= digits_val(s),
    decreases s.len(),
{
    if k < s.len() {
        let s1 = s.drop_last();
        if s1.len() > 0 {
            assert forall|i: int| 0 <= i < s1.len() implies is_digit(#[trigger] s1[i]) by {
                assert(s1[i] == s[i]);
            }
            lemma_digits_val_mono(s1, k);
            assert(s1.take(k as int) =~= s.take(k as int));
        } else {
            assert(s.take(k as int) =~= Seq::<char>::empty());
        }
        assert(is_digit(s[s.len() - 1]));
    } else {
        assert(s.take(k as int) =~= s);
    }
}

/// The value of the digit run `s[lo..hi]`, or `None` when it is not a
/// non-empty run of digits or its value exceeds `cap`.
pub fn read_digits(s: &Vec<char>, lo: usize, hi: usize, cap: u64) -> (r: Option<u64>)
    requires
        lo <= hi <= s@.len(),
        cap <= DIGITS_CAP,
    ensures
        r matches Some(v) ==> is_digits(s@.subrange(lo as int, hi as int)) && v == digits_val(
            s@.subrange(lo as int, hi as int),
        ) && v <= cap,
        r is None ==> !is_digits(s@.subrange(lo as int, hi as int)) || digits_val(
            s@.subrange(lo as int, hi as int),
        ) > cap,
{
    if lo == hi {
        return None;
    }
    let mut acc: u64 = 0;
    let mut i = lo;
    while i < hi
        invariant
            lo <= i <= hi <= s@.len(),
            acc <= cap <= DIGITS_CAP,
            acc == digits_val(s@.subrange(lo as int, i as int)),
            forall|j: int| lo <= j < i ==> is_digit(#[trigger] s@[j]),
        decreases hi - i,
    {
        let c = s[i];
        if !('0' <= c && c <= '9') {
            proof {
                let t = s@.subrange(lo as int, hi as int);
                assert(t[i - lo] == c);
            }
            return None;
        }
        let d = (c as u32 - '0' as u32) as u64;
        proof {
            lemma_digits_val_grows(s@.subrange(lo as int, i as int), c);
            assert(s@.subrange(lo as int, i as int).push(c) =~= s@.subrange(lo as int, i + 1));
        }
        if acc * 10 + d > cap {
            proof {
                let t = s@.subrange(lo as int, hi as int);
                if is_digits(t) {
                    lemma_digits_val_mono(t, (i + 1 - lo) as nat);
                    assert(t.take(i + 1 - lo) =~= s@.subrange(lo as int, i + 1));
                }
            }
            return None;
        }
        acc = acc * 10 + d;
        i = i + 1;
    }
    proof {
        let t = s@.subrange(lo as int, hi as int);
        assert forall|j: int| 0 <= j < t.len() implies is_digit(#[trigger] t[j]) by {
            assert(t[j] == s@[lo + j]);
        }
    }
    Some(acc)
}

/// The integer spelled by `s[lo..hi]` when it lies in `[min, max]`.
pub fn read_int(s: &Vec<char>, lo: usize, hi: usize, min: i64, max: i64) -> (r: Option<i64>)
    requires
        lo <= hi <= s@.len(),
        -0x1_0000_0000 <= min <= max <= 0x1_0000_0000,
    ensures
        r matches Some(v) ==> parse_int_within(s@.subrange(lo as int, hi as int), min as int, max as int) == Some(v as int),
        r is None ==> parse_int_within(s@.subrange(lo as int, hi as int), min as int, max as int) is None,
{
    let ghost t = s@.subrange(lo as int, hi as int);
    if lo < hi && (s[lo] == '-' || s[lo] == '+') {
        let neg = s[lo] == '-';
        assert(t.drop_first() =~= s@.subrange(lo + 1, hi as int));
        assert(t[0] == s@[lo as int]);
        match read_digits(s, lo + 1, hi, 0x1_0000_0000) {
            Some(v) => {
                let x: i64 = if neg { 0 - v as i64 } else { v as i64 };
                if min <= x && x <= max {
                    Some(x)
                } else {
                    None
                }
            },
            None => None,
        }
    } else {
        proof {
            if lo < hi {
                assert(t[0] == s@[lo as int]);
            }
        }
        match read_digits(s, lo, hi, 0x1_0000_0000) {
            Some(v) => {
                let x = v as i64;
                if min <= x && x <= max {
                    Some(x)
                } else {
                    None
                }
            },
            None => None,
        }
    }
}

/// Pieces of `s` between occurrences of `c`, as `str::split` gives them.
pub open spec fn split(s: Seq<char>, c: char) -> Seq<Seq<char>>
    decreases s.len(),
{
    if s.len() == 0 {
        seq![Seq::empty()]
    } else {
        let r = split(s.drop_last(), c);
        if s.last() == c {
            r.push(Seq::empty())
        } else {
            r.update(r.len() - 1, r.last().push(s.last()))
        }
    }
}

/// The pieces joined with `c` between neighbours.
pub open spec fn join(xs: Seq<Seq<char>>, c: char) -> Seq<char>
    decreases xs.len(),
{
    if xs.len() == 0 {
        Seq::empty()
    } else if xs.len() == 1 {
        xs[0]
    } else {
        join(xs.drop_last(), c) + seq![c] + xs.last()
    }
}

pub open spec fn free_of(s: Seq<char>, c: char) -> bool {
    forall|i: int| 0 <= i < s.len() ==> s[i] != c
}

pub proof fn lemma_split_len(s: Seq<char>, c: char)
    ensures
        split(s, c).len() >= 1,
    decreases s.len(),
{
    if s.len() > 0 {
        lemma_split_len(s.drop_last(), c);
    }
}

proof fn lemma_split_append_free(a: Seq<char>, b: Seq<char>, c: char)
    requires
        free_of(b, c),
    ensures
        split(a + b, c) == split(a, c).update(
            split(a, c).len() - 1,
            split(a, c).last() + b,
        ),
    decreases b.len(),
{
    lemma_split_len(a, c);
    let r = split(a, c);
    if b.len() == 0 {
        assert(a + b =~= a);
        assert(r.last() + b =~= r.last());
        assert(r.update(r.len() - 1, r.last()) =~= r);
    } else {
        let b1 = b.drop_last();
        lemma_split_append_free(a, b1, c);
        assert((a + b).drop_last() =~= a + b1);
        assert((a + b).last() == b.last());
        assert(b.last() != c);
        let r1 = split(a + b1, c);
        assert(r1.last() == r.last() + b1);
        assert(r1.last().push(b.last()) =~= r.last() + b);
        assert(r1.update(r1.len() - 1, r1.last().push(b.last())) =~= r.update(
            r.len() - 1,
            r.last() + b,
        ));
    }
}

/// A piece free of the delimiter splits to itself.
pub proof fn lemma_split_free(b: Seq<char>, c: char)
    requires
        free_of(b, c),
    ensures
        split(b, c) == seq![b],
{
    lemma_split_append_free(Seq::empty(), b, c);
    assert(Seq::<char>::empty() + b =~= b);
    assert(Seq::<char>::empty() + b =~= b);
    assert(seq![Seq::<char>::empty()].update(0, Seq::<char>::empty() + b) =~= seq![b]);
}

/// A delimiter followed by a free piece adds that piece.
pub proof fn lemma_split_sep(a: Seq<char>, b: Seq<char>, c: char)
    requires
        free_of(b, c),
    ensures
        split(a + seq![c] + b, c) == split(a, c).push(b),
{
    let ac = a + seq![c];
    assert(ac.drop_last() =~= a);
    assert(ac.last() == c);
    lemma_split_append_free(ac, b, c);
    let r = split(a, c).push(Seq::empty());
    assert(r.update(r.len() - 1, Seq::<char>::empty() + b) =~= split(a, c).push(b));
}

/// Splitting undoes joining when no piece holds the delimiter.
pub proof fn lemma_split_join(xs: Seq<Seq<char>>, c: char)
    requires
        xs.len() >= 1,
        forall|k: int| 0 <= k < xs.len() ==> free_of(#[trigger] xs[k], c),
    ensures
        split(join(xs, c), c) == xs,
    decreases xs.len(),
{
    if xs.len() == 1 {
        lemma_split_free(xs[0], c);
        assert(seq![xs[0]] =~= xs);
    } else {
        let ys = xs.drop_last();
        assert forall|k: int| 0 <= k < ys.len() implies free_of(#[trigger] ys[k], c) by {
            assert(ys[k] == xs[k]);
        }
        lemma_split_join(ys, c);
        assert(free_of(xs[xs.len() - 1], c));
        lemma_split_sep(join(ys, c), xs.last(), c);
        assert(ys.push(xs.last()) =~= xs);
    }
}

pub proof fn lemma_digits_free(s: Seq<char>, c: char)
    requires
        is_digits(s),
        !is_digit(c),
    ensures
        free_of(s, c),
{
}

/// The text of each range in `r`.
pub open spec fn pieces(s: Seq<char>, r: Seq<(usize, usize)>) -> Seq<Seq<char>> {
    Seq::new(r.len(), |k: int| s.subrange(r[k].0 as int, r[k].1 as int))
}

/// Ranges within `[lo, hi]` that are ordered and apart.
pub open spec fn ranges_within(r: Seq<(usize, usize)>, lo: int, hi: int) -> bool {
    forall|k: int| 0 <= k < r.len() ==> lo <= (#[trigger] r[k]).0 <= r[k].1 <= hi
}

/// Splits `s[lo..hi]` at each `c`, giving the range of each piece.
pub fn split_ranges(s: &Vec<char>, lo: usize, hi: usize, c: char) -> (r: Vec<(usize, usize)>)
    requires
        lo <= hi <= s@.len(),
    ensures
        ranges_within(r@, lo as int, hi as int),
        pieces(s@, r@) == split(s@.subrange(lo as int, hi as int), c),
{
    let mut r: Vec<(usize, usize)> = Vec::new();
    let mut start = lo;
    let mut i = lo;
    proof {
        assert(s@.subrange(lo as int, lo as int) =~= Seq::<char>::empty());
        assert(pieces(s@, r@).push(s@.subrange(start as int, i as int)) =~= seq![Seq::<char>::empty()]);
    }
    while i < hi
        invariant
            lo <= start <= i <= hi <= s@.len(),
            ranges_within(r@, lo as int, i as int),
            split(s@.subrange(lo as int, i as int), c) == pieces(s@, r@).push(
                s@.subrange(start as int, i as int),
            ),
        decreases hi - i,
    {
        let ghost t = s@.subrange(lo as int, i + 1);
        proof {
            assert(t.drop_last() =~= s@.subrange(lo as int, i as int));
            assert(t.last() == s@[i as int]);
        }
        if s[i] == c {
            let ghost before = pieces(s@, r@);
            r.push((start, i));
            proof {
                assert(pieces(s@, r@) =~= before.push(s@.subrange(start as int, i as int)));
                assert(s@.subrange(i + 1, i + 1) =~= Seq::<char>::empty());
            }
            start = i + 1;
        } else {
            proof {
                assert(s@.subrange(start as int, i as int).push(s@[i as int]) =~= s@.subrange(
                    start as int,
                    i + 1,
                ));
                let p = pieces(s@, r@).push(s@.subrange(start as int, i as int));
                assert(p.update(p.len() - 1, s@.subrange(start as int, i + 1)) =~= pieces(
                    s@,
                    r@,
                ).push(s@.subrange(start as int, i + 1)));
            }
        }
        i = i + 1;
    }
    let ghost before = pieces(s@, r@);
    r.push((start, hi));
    assert(pieces(s@, r@) =~= before.push(s@.subrange(start as int, hi as int)));
    r
}

/// A decimal held exactly as a count of millionths; the text format writes
/// such values with six places.
#[derive(Clone, Copy, Debug, PartialEq, Eq, Structural)]
pub struct Fixed {
    pub micros: i64,
}

/// Magnitude bound of a [`Fixed`], in millionths.
pub const FIXED_LIMIT: i64 = 1_000_000_000_000_000_000;

/// Bound of the whole-number part that the text form may carry.
pub const WHOLE_LIMIT: u64 = 1_000_000_000_000;

pub const MICROS: i64 = 1_000_000;

impl Fixed {
    pub open spec fn wf(self) -> bool {
        -FIXED_LIMIT < self.micros < FIXED_LIMIT
    }

    /// The text of the value: `0.0` for zero, six decimal places otherwise.
    pub fn to_string(&self) -> (r: String)
        requires
            self.wf(),
        ensures
            r@ == fixed_str(self.micros as int),
    {
        let mut out: Vec<char> = Vec::new();
        push_fixed(&mut out, *self);
        crate::text::string_of(&out)
    }

    /// The value a decimal text spells (see [`parse_fixed`]).
    pub fn from_str(s: &str) -> (r: Option<Fixed>)
        ensures
            r matches Some(f) ==> f.wf() && parse_fixed(s@) == Some(f.micros as int),
            r is None ==> parse_fixed(s@) is None,
    {
        let c = crate::text::chars_of(s);
        assert(c@.subrange(0, c@.len() as int) =~= c@);
        read_fixed(&c, 0, c.len())
    }
}

/// Zero is written with one decimal place; any other value with exactly six,
/// after a point that follows its whole part.
pub proof fn lemma_fixed_places(m: int)
    requires
        -FIXED_LIMIT < m < FIXED_LIMIT,
    ensures
        m == 0 ==> fixed_str(m) == seq!['0', '.', '0'],
        m != 0 ==> fixed_str(m).len() >= 8 && fixed_str(m)[fixed_str(m).len() - 7] == '.'
            && forall|i: int|
            fixed_str(m).len() - 6 <= i < fixed_str(m).len() ==> is_digit(#[trigger] fixed_str(m)[i]),
{
    if m != 0 {
        let a: int = if m < 0 {
            -m
        } else {
            m
        };
        let w = nat_str((a / 1_000_000) as nat);
        let f = padded_str((a % 1_000_000) as nat, 6);
        lemma_nat_str((a / 1_000_000) as nat);
        lemma_padded_str((a % 1_000_000) as nat, 6);
        let sg: Seq<char> = if m < 0 {
            seq!['-']
        } else {
            Seq::empty()
        };
        let t = fixed_str(m);
        assert(t =~= sg + w + seq!['.'] + f);
        assert forall|i: int| t.len() - 6 <= i < t.len() implies is_digit(#[trigger] t[i]) by {
            assert(t[i] == f[i - (t.len() - 6)]);
        }
    }
}

/// Text of a fixed decimal: `0.0` for zero, else six decimal places.
pub open spec fn fixed_str(m: int) -> Seq<char> {
    if m == 0 {
        seq!['0', '.', '0']
    } else {
        let a = if m < 0 {
            -m
        } else {
            m
        };
        (if m < 0 {
            seq!['-']
        } else {
            Seq::empty()
        }) + nat_str((a / 1_000_000) as nat) + seq!['.'] + padded_str((a % 1_000_000) as nat, 6)
    }
}

/// Millionths spelled by an unsigned decimal: digits, then optionally `.` and
/// one to six digits.
pub open spec fn unsigned_fixed(body: Seq<char>) -> Option<int> {
    let parts = split(body, '.');
    if parts.len() == 1 && is_digits(parts[0]) && digits_val(parts[0]) < WHOLE_LIMIT {
        Some(digits_val(parts[0]) * 1_000_000int)
    } else if parts.len() == 2 && is_digits(parts[0]) && digits_val(parts[0]) < WHOLE_LIMIT
        && is_digits(parts[1]) && parts[1].len() <= 6 {
        Some(digits_val(parts[0]) * 1_000_000int + digits_val(parts[1]) * pow10(
            (6 - parts[1].len()) as nat,
        ))
    } else {
        None
    }
}

/// Millionths spelled by a decimal with an optional sign.
pub open spec fn parse_fixed(s: Seq<char>) -> Option<int> {
    if s.len() > 0 && (s[0] == '-' || s[0] == '+') {
        match unsigned_fixed(s.drop_first()) {
            Some(v) => Some(if s[0] == '-' {
                -v
            } else {
                v
            }),
            None => None,
        }
    } else {
        unsigned_fixed(s)
    }
}

proof fn lemma_pow10_6()
    ensures
        pow10(6) == 1_000_000,
        pow10(0) == 1,
{
    reveal_with_fuel(pow10, 7);
}

pub proof fn lemma_parse_fixed_str(m: int)
    requires
        -FIXED_LIMIT < m < FIXED_LIMIT,
    ensures
        parse_fixed(fixed_str(m)) == Some(m),
{
    lemma_pow10_6();
    if m == 0 {
        let z = seq!['0'];
        assert(is_digit('0'));
        lemma_nat_str(0);
        assert(z =~= nat_str(0));
        lemma_split_free(z, '.');
        lemma_split_sep(z, z, '.');
        assert(fixed_str(m) =~= z + seq!['.'] + z);
        assert(fixed_str(m)[0] == '0');
    } else {
        let a: int = if m < 0 {
            -m
        } else {
            m
        };
        let q = (a / 1_000_000) as nat;
        let r = (a % 1_000_000) as nat;
        let w = nat_str(q);
        let f = padded_str(r, 6);
        lemma_nat_str(q);
        lemma_padded_str(r, 6);
        lemma_digits_free(w, '.');
        assert(is_digits(f));
        lemma_digits_free(f, '.');
        lemma_split_free(w, '.');
        lemma_split_sep(w, f, '.');
        let body = w + seq!['.'] + f;
        assert(split(body, '.') =~= seq![w, f]);
        assert(r % 1_000_000 == r);
        assert(unsigned_fixed(body) == Some(a));
        if m < 0 {
            assert(fixed_str(m) =~= seq!['-'] + body);
            assert((seq!['-'] + body).drop_first() =~= body);
        } else {
            assert(fixed_str(m) =~= body);
            assert(is_digit(w[0]));
            assert(body[0] == w[0]);
        }
    }
}

/// Appends the text of `f`.
pub fn push_fixed(out: &mut Vec<char>, f: Fixed)
    requires
        f.wf(),
    ensures
        final(out)@ == old(out)@ + fixed_str(f.micros as int),
{
    let m = f.micros;
    if m == 0 {
        out.push('0');
        out.push('.');
        out.push('0');
        assert(final(out)@ =~= old(out)@ + fixed_str(f.micros as int));
    } else {
        if m < 0 {
            out.push('-');
        }
        let a: u64 = if m < 0 {
            (0 - m) as u64
        } else {
            m as u64
        };
        let ghost mid = out@;
        push_nat(out, a / 1_000_000);
        out.push('.');
        push_padded(out, a % 1_000_000, 6);
        assert(final(out)@ =~= old(out)@ + fixed_str(f.micros as int));
    }
}

/// Millionths spelled by `s[lo..hi]` (see [`parse_fixed`]).
pub fn read_fixed(s: &Vec<char>, lo: usize, hi: usize) -> (r: Option<Fixed>)
    requires
        lo <= hi <= s@.len(),
    ensures
        r matches Some(f) ==> f.wf() && parse_fixed(s@.subrange(lo as int, hi as int)) == Some(
            f.micros as int,
        ),
        r is None ==> parse_fixed(s@.subrange(lo as int, hi as int)) is None,
{
    let ghost t = s@.subrange(lo as int, hi as int);
    if lo < hi && (s[lo] == '-' || s[lo] == '+') {
        assert(t.drop_first() =~= s@.subrange(lo + 1, hi as int));
        assert(t[0] == s@[lo as int]);
        match read_unsigned_fixed(s, lo + 1, hi) {
            Some(v) => if s[lo] == '-' {
                Some(Fixed { micros: 0 - v })
            } else {
                Some(Fixed { micros: v })
            },
            None => None,
        }
    } else {
        proof {
            if lo < hi {
                assert(t[0] == s@[lo as int]);
            }
        }
        match read_unsigned_fixed(s, lo, hi) {
            Some(v) => Some(Fixed { micros: v }),
            None => None,
        }
    }
}

proof fn lemma_digits_val_bound(s: Seq<char>)
    requires
        forall|i: int| 0 <= i < s.len() ==> is_digit(#[trigger] s[i]),
    ensures
        digits_val(s) < pow10(s.len()),
    decreases s.len(),
{
    if s.len() > 0 {
        let s1 = s.drop_last();
        assert forall|i: int| 0 <= i < s1.len() implies is_digit(#[trigger] s1[i]) by {
            assert(s1[i] == s[i]);
        }
        lemma_digits_val_bound(s1);
        assert(is_digit(s[s.len() - 1]));
        assert(s1.len() == (s.len() - 1) as nat);
    }
}

proof fn lemma_pow10_add(a: nat, b: nat)
    ensures
        pow10(a) * pow10(b) == pow10(a + b),
    decreases a,
{
    if a > 0 {
        lemma_pow10_add((a - 1) as nat, b);
        assert(pow10(a) * pow10(b) == 10 * (pow10((a - 1) as nat) * pow10(b))) by (nonlinear_arith)
            requires
                pow10(a) == 10 * pow10((a - 1) as nat),
        ;
        assert((a + b - 1) as nat == (a - 1) as nat + b);
    }
}

fn scale_of(e: u64) -> (r: u64)
    requires
        e <= 6,
    ensures
        r == pow10(e as nat),
        r <= 1_000_000,
{
    proof {
        reveal_with_fuel(pow10, 7);
    }
    if e == 0 {
        1
    } else if e == 1 {
        10
    } else if e == 2 {
        100
    } else if e == 3 {
        1000
    } else if e == 4 {
        10_000
    } else if e == 5 {
        100_000
    } else {
        1_000_000
    }
}

fn read_unsigned_fixed(s: &Vec<char>, lo: usize, hi: usize) -> (r: Option<i64>)
    requires
        lo <= hi <= s@.len(),
    ensures
        r matches Some(v) ==> 0 <= v < FIXED_LIMIT && unsigned_fixed(
            s@.subrange(lo as int, hi as int),
        ) == Some(v as int),
        r is None ==> unsigned_fixed(s@.subrange(lo as int, hi as int)) is None,
{
    proof {
        lemma_pow10_6();
    }
    let parts = split_ranges(s, lo, hi, '.');
    let ghost ps = split(s@.subrange(lo as int, hi as int), '.');
    assert(parts@.len() == ps.len());
    if parts.len() == 1 {
        let (a, b) = parts[0];
        assert(ps[0] == s@.subrange(a as int, b as int));
        match read_digits(s, a, b, WHOLE_LIMIT - 1) {
            Some(w) => Some((w * 1_000_000) as i64),
            None => None,
        }
    } else if parts.len() == 2 {
        let (a, b) = parts[0];
        let (c, d) = parts[1];
        assert(ps[0] == s@.subrange(a as int, b as int));
        assert(ps[1] == s@.subrange(c as int, d as int));
        if d - c > 6 {
            return None;
        }
        proof {
            let fp = s@.subrange(c as int, d as int);
            if forall|i: int| 0 <= i < fp.len() ==> is_digit(#[trigger] fp[i]) {
                lemma_digits_val_bound(fp);
                lemma_pow10_add(fp.len(), (6 - fp.len()) as nat);
                lemma_pow10_pos((6 - fp.len()) as nat);
                assert(pow10(fp.len()) <= 1_000_000) by (nonlinear_arith)
                    requires
                        pow10(fp.len()) * pow10((6 - fp.len()) as nat) == 1_000_000,
                        pow10((6 - fp.len()) as nat) >= 1,
                ;
            }
        }
        match read_digits(s, a, b, WHOLE_LIMIT - 1) {
            Some(w) => match read_digits(s, c, d, 999_999) {
                Some(f) => {
                    let k = d - c;
                    let scale = scale_of(6 - k as u64);
                    proof {
                        lemma_pow10_add(k as nat, (6 - k) as nat);
                        lemma_digits_val_bound(s@.subrange(c as int, d as int));
                    }
                    assert(f * scale < 1_000_000) by (nonlinear_arith)
                        requires
                            f < pow10(k as nat),
                            scale == pow10((6 - k) as nat),
                            pow10(k as nat) * pow10((6 - k) as nat) == 1_000_000,
                    {
                    }
                    Some((w * 1_000_000 + f * scale) as i64)
                },
                None => None,
            },
            None => None,
        }
    } else {
        None
    }
}

} // verus!
