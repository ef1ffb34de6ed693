//! Clothing categories and their one- or two-letter codes.
use vstd::prelude::*;

use crate::codec::free_of;
use crate::entries::{FormatError, entry_str, entry_value, lemma_entry, value_range};
use crate::text::{is_white, push_str, string_of, trim_end, trim_start};
use crate::text::{chars_of, eq_word, eq_word_ci, lowers_to, trim, trim_range};
use vstd::string::StringExecFns;

verus! {

/// Where an object is worn; `NotWorn` for objects that are not clothing.
#[derive(Clone, Copy, Debug, PartialEq, Eq, Structural)]
pub enum ClothingType {
    Bottom,
    Head,
    Pack,
    Shield,
    Shoe,
    Top,
    NotWorn,
}

impl ClothingType {
    /// The code that the object format and the crafting records use.
    pub open spec fn code(self) -> Seq<char> {
        match self {
            ClothingType::Bottom => "b"@,
            ClothingType::Head => "h"@,
            ClothingType::Pack => "p"@,
            ClothingType::Shield => "p0"@,
            ClothingType::Shoe => "s"@,
            ClothingType::Top => "t"@,
            ClothingType::NotWorn => "n"@,
        }
    }

    /// The category a code names.
    pub open spec fn from_code_spec(s: Seq<char>) -> Option<ClothingType> {
        if s == "b"@ {
            Some(ClothingType::Bottom)
        } else if s == "h"@ {
            Some(ClothingType::Head)
        } else if s == "p"@ {
            Some(ClothingType::Pack)
        } else if s == "p0"@ {
            Some(ClothingType::Shield)
        } else if s == "s"@ {
            Some(ClothingType::Shoe)
        } else if s == "t"@ {
            Some(ClothingType::Top)
        } else if s == "n"@ {
            Some(ClothingType::NotWorn)
        } else {
            None
        }
    }

    /// The category that a code or an English name gives, in any ASCII case.
    pub open spec fn from_name_spec(s: Seq<char>) -> Option<ClothingType> {
        if lowers_to(s, "b"@) || lowers_to(s, "bottom"@) {
            Some(ClothingType::Bottom)
        } else if lowers_to(s, "h"@) || lowers_to(s, "head"@) {
            Some(ClothingType::Head)
        } else if lowers_to(s, "p"@) || lowers_to(s, "pack"@) {
            Some(ClothingType::Pack)
        } else if lowers_to(s, "p0"@) || lowers_to(s, "shield"@) {
            Some(ClothingType::Shield)
        } else if lowers_to(s, "s"@) || lowers_to(s, "shoe"@) {
            Some(ClothingType::Shoe)
        } else if lowers_to(s, "t"@) || lowers_to(s, "top"@) {
            Some(ClothingType::Top)
        } else if lowers_to(s, "n"@) || lowers_to(s, "none"@) {
            Some(ClothingType::NotWorn)
        } else {
            None
        }
    }

    pub fn code_str(&self) -> (r: &'static str)
        ensures
            r@ == self.code(),
    {
        match self {
            ClothingType::Bottom => "b",
            ClothingType::Head => "h",
            ClothingType::Pack => "p",
            ClothingType::Shield => "p0",
            ClothingType::Shoe => "s",
            ClothingType::Top => "t",
            ClothingType::NotWorn => "n",
        }
    }

    /// The category's code.
    pub fn to_string(&self) -> (r: String)
        ensures
            r@ == self.code(),
    {
        String::from_str(self.code_str())
    }

    /// The category whose code is `s[lo..hi]`.
    pub fn read_code(s: &Vec<char>, lo: usize, hi: usize) -> (r: Option<ClothingType>)
        requires
            lo <= hi <= s@.len(),
        ensures
            r == Self::from_code_spec(s@.subrange(lo as int, hi as int)),
    {
        if eq_word(s, lo, hi, "b") {
            Some(ClothingType::Bottom)
        } else if eq_word(s, lo, hi, "h") {
            Some(ClothingType::Head)
        } else if eq_word(s, lo, hi, "p") {
            Some(ClothingType::Pack)
        } else if eq_word(s, lo, hi, "p0") {
            Some(ClothingType::Shield)
        } else if eq_word(s, lo, hi, "s") {
            Some(ClothingType::Shoe)
        } else if eq_word(s, lo, hi, "t") {
            Some(ClothingType::Top)
        } else if eq_word(s, lo, hi, "n") {
            Some(ClothingType::NotWorn)
        } else {
            None
        }
    }

    /// The category whose code is `code` exactly; any other text is
    /// [`FormatError::UnknownCode`].
    pub fn from_code(code: &str) -> (r: Result<ClothingType, FormatError>)
        ensures
            r matches Ok(t) ==> Self::from_code_spec(code@) == Some(t),
            r is Err <==> Self::from_code_spec(code@) is None,
            r matches Err(e) ==> e == FormatError::UnknownCode,
    {
        let s = chars_of(code);
        assert(s@.subrange(0, s@.len() as int) =~= s@);
        match Self::read_code(&s, 0, s.len()) {
            Some(t) => Ok(t),
            None => Err(FormatError::UnknownCode),
        }
    }

    /// The category that the trimmed text names by code or by English name,
    /// ignoring ASCII case.
    pub fn from_str(text: &str) -> (r: Result<ClothingType, FormatError>)
        ensures
            r matches Ok(t) ==> Self::from_name_spec(trim(text@)) == Some(t),
            r is Err <==> Self::from_name_spec(trim(text@)) is None,
            r matches Err(e) ==> e == FormatError::UnknownCode,
    {
        let s = chars_of(text);
        assert(s@.subrange(0, s@.len() as int) =~= s@);
        let (lo, hi) = trim_range(&s, 0, s.len());
        if eq_word_ci(&s, lo, hi, "b") || eq_word_ci(&s, lo, hi, "bottom") {
            Ok(ClothingType::Bottom)
        } else if eq_word_ci(&s, lo, hi, "h") || eq_word_ci(&s, lo, hi, "head") {
            Ok(ClothingType::Head)
        } else if eq_word_ci(&s, lo, hi, "p") || eq_word_ci(&s, lo, hi, "pack") {
            Ok(ClothingType::Pack)
        } else if eq_word_ci(&s, lo, hi, "p0") || eq_word_ci(&s, lo, hi, "shield") {
            Ok(ClothingType::Shield)
        } else if eq_word_ci(&s, lo, hi, "s") || eq_word_ci(&s, lo, hi, "shoe") {
            Ok(ClothingType::Shoe)
        } else if eq_word_ci(&s, lo, hi, "t") || eq_word_ci(&s, lo, hi, "top") {
            Ok(ClothingType::Top)
        } else if eq_word_ci(&s, lo, hi, "n") || eq_word_ci(&s, lo, hi, "none") {
            Ok(ClothingType::NotWorn)
        } else {
            Err(FormatError::UnknownCode)
        }
    }
}

/// Every category's code names it.
pub proof fn lemma_clothing_code_round_trip(t: ClothingType)
    ensures
        ClothingType::from_code_spec(t.code()) == Some(t),
{
    reveal_strlit("b");
    reveal_strlit("h");
    reveal_strlit("p");
    reveal_strlit("p0");
    reveal_strlit("s");
    reveal_strlit("t");
    reveal_strlit("n");
    let c = t.code();
    assert(c != "b"@ <== (c.len() != "b"@.len() || c[0] != "b"@[0] || c[c.len() - 1] != "b"@["b"@.len() - 1]));
    assert(c != "h"@ <== (c.len() != "h"@.len() || c[0] != "h"@[0] || c[c.len() - 1] != "h"@["h"@.len() - 1]));
    assert(c != "p"@ <== (c.len() != "p"@.len() || c[0] != "p"@[0] || c[c.len() - 1] != "p"@["p"@.len() - 1]));
    assert(c != "p0"@ <== (c.len() != "p0"@.len() || c[0] != "p0"@[0] || c[c.len() - 1] != "p0"@["p0"@.len() - 1]));
    assert(c != "s"@ <== (c.len() != "s"@.len() || c[0] != "s"@[0] || c[c.len() - 1] != "s"@["s"@.len() - 1]));
    assert(c != "t"@ <== (c.len() != "t"@.len() || c[0] != "t"@[0] || c[c.len() - 1] != "t"@["t"@.len() - 1]));
    assert(c != "n"@ <== (c.len() != "n"@.len() || c[0] != "n"@[0] || c[c.len() - 1] != "n"@["n"@.len() - 1]));
}

/// The clothing line of an object: `clothing=h`.
#[derive(Clone, Copy, Debug, PartialEq, Eq, Structural)]
pub struct ClothingData {
    pub clothing: ClothingType,
}

impl ClothingData {
    pub open spec fn text(self) -> Seq<char> {
        entry_str("clothing"@, self.clothing.code())
    }

    /// The category whose code is the trimmed value of the line.
    pub open spec fn parse(line: Seq<char>) -> Option<ClothingData> {
        match entry_value(line) {
            Some(v) => match ClothingType::from_code_spec(trim(v)) {
                Some(t) => Some(ClothingData { clothing: t }),
                None => None,
            },
            None => None,
        }
    }

    pub fn push_text(&self, out: &mut Vec<char>)
        ensures
            final(out)@ == old(out)@ + self.text(),
    {
        push_str(out, "clothing=");
        push_str(out, self.clothing.code_str());
        proof {
            reveal_strlit("clothing=");
            reveal_strlit("clothing");
        }
        assert(final(out)@ =~= old(out)@ + self.text());
    }

    pub fn to_string(&self) -> (r: String)
        ensures
            r@ == self.text(),
    {
        let mut out = Vec::new();
        self.push_text(&mut out);
        string_of(&out)
    }

    pub fn read(s: &Vec<char>, lo: usize, hi: usize) -> (r: Result<ClothingData, FormatError>)
        requires
            lo <= hi <= s@.len(),
        ensures
            r is Err <==> Self::parse(s@.subrange(lo as int, hi as int)) is None,
            r matches Ok(d) ==> Self::parse(s@.subrange(lo as int, hi as int)) == Some(d),
    {
        let (a, b) = match value_range(s, lo, hi) {
            Some(p) => p,
            None => return Err(FormatError::Malformed),
        };
        let (c, d) = trim_range(s, a, b);
        match ClothingType::read_code(s, c, d) {
            Some(t) => Ok(ClothingData { clothing: t }),
            None => Err(FormatError::UnknownCode),
        }
    }

    pub fn from_str(line: &str) -> (r: Result<ClothingData, FormatError>)
        ensures
            r is Err <==> Self::parse(line@) is None,
            r matches Ok(d) ==> Self::parse(line@) == Some(d),
    {
        let s = chars_of(line);
        assert(s@.subrange(0, s@.len() as int) =~= s@);
        Self::read(&s, 0, s.len())
    }
}

pub proof fn lemma_clothing_round_trip(d: ClothingData)
    ensures
        ClothingData::parse(d.text()) == Some(d),
{
    reveal_strlit("clothing");
    reveal_strlit("b");
    reveal_strlit("h");
    reveal_strlit("p");
    reveal_strlit("p0");
    reveal_strlit("s");
    reveal_strlit("t");
    reveal_strlit("n");
    let c = d.clothing.code();
    assert(free_of("clothing"@, '='));
    assert(free_of(c, '='));
    lemma_entry("clothing"@, c);
    assert(!is_white(c[0]));
    assert(!is_white(c[c.len() - 1]));
    assert(trim_start(c) == c);
    assert(trim_end(c) == c);
    lemma_clothing_code_round_trip(d.clothing);
}

} // verus!
