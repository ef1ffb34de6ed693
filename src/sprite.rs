//! Sprite blocks: a `spriteID` line followed by the lines that describe that
//! sprite, one value per line.
#![allow(non_snake_case)]
use vstd::prelude::*;

use crate::codec::{
    Fixed, fixed_str, free_of, int_str, lemma_split_free, lemma_split_sep, parse_fixed,
    parse_int_within, pieces, push_fixed, push_int, ranges_within, read_fixed, read_int, split,
};
use crate::entries::{
    FormatError, Part, entry_name, entry_str, entry_value, find_line, find_named, flag_of, flag_str,
    head_range, head_value, last_line, last_named, lemma_entry, named_flag, opt_flag, push_flag,
    read_flag,
};
use crate::fields::{InvisHoldingData, opt_entry, opt_flag_str, push_opt_flag};
use crate::lists::{
    ColorData, DoublePair, ints_of_i8, ints_text, lenient_ints, push_int_list, read_i8_list,
    widen_i8s,
};
use crate::text::{eq_word, push_str};

verus! {

/// One sprite of an object.
#[derive(Clone, Debug, PartialEq)]
pub struct SpriteData {
    pub spriteID: i32,
    pub pos: DoublePair,
    pub rot: Fixed,
    pub hFlip: bool,
    pub color: ColorData,
    pub ageRange: DoublePair,
    pub parent: i32,
    pub invisHolding: InvisHoldingData,
    pub invisCont: Option<bool>,
    pub spritesDrawnBehind: Option<Vec<i8>>,
    pub spritesAdditiveBlend: Option<Vec<i8>>,
    pub ignoredCont: Option<Vec<i8>>,
}

/// A sprite with its index lists as sequences.
pub struct SpriteView {
    pub spriteID: i32,
    pub pos: DoublePair,
    pub rot: Fixed,
    pub hFlip: bool,
    pub color: ColorData,
    pub ageRange: DoublePair,
    pub parent: i32,
    pub invisHolding: InvisHoldingData,
    pub invisCont: Option<bool>,
    pub spritesDrawnBehind: Option<Seq<int>>,
    pub spritesAdditiveBlend: Option<Seq<int>>,
    pub ignoredCont: Option<Seq<int>>,
}

pub open spec fn list_view(v: Option<Vec<i8>>) -> Option<Seq<int>> {
    match v {
        Some(x) => Some(ints_of_i8(x@)),
        None => None,
    }
}

pub open spec fn opt_list_str(v: Option<Seq<int>>) -> Option<Seq<char>> {
    match v {
        Some(x) => Some(ints_text(x)),
        None => None,
    }
}

/// An optional index list: `Some(None)` when absent, `None` when a line
/// bearing the name has no value.
pub open spec fn opt_list(lines: Seq<Seq<char>>, name: Seq<char>) -> Option<Option<Seq<int>>> {
    match last_named(lines, name) {
        None => Some(None),
        Some(Some(v)) => Some(Some(lenient_ints(split(v, ','), -128, 127))),
        Some(None) => None,
    }
}

/// The value of a required line: `None` when absent or without a value.
pub open spec fn required(lines: Seq<Seq<char>>, name: Seq<char>) -> Option<Seq<char>> {
    match last_named(lines, name) {
        Some(Some(v)) => Some(v),
        _ => None,
    }
}

/// Whether a line name belongs to a sprite block after its first line.
pub open spec fn is_sprite_field(n: Seq<char>) -> bool {
    n == "pos"@ || n == "rot"@ || n == "hFlip"@ || n == "color"@ || n == "ageRange"@ || n
        == "parent"@ || n == "invisHolding"@ || n == "invisCont"@ || n == "spritesDrawnBehind"@
        || n == "spritesAdditiveBlend"@ || n == "ignoredCont"@
}

impl SpriteData {
    pub open spec fn wf(self) -> bool {
        self.pos.wf() && self.rot.wf() && self.color.wf() && self.ageRange.wf()
    }

    pub open spec fn view(self) -> SpriteView {
        SpriteView {
            spriteID: self.spriteID,
            pos: self.pos,
            rot: self.rot,
            hFlip: self.hFlip,
            color: self.color,
            ageRange: self.ageRange,
            parent: self.parent,
            invisHolding: self.invisHolding,
            invisCont: self.invisCont,
            spritesDrawnBehind: list_view(self.spritesDrawnBehind),
            spritesAdditiveBlend: list_view(self.spritesAdditiveBlend),
            ignoredCont: list_view(self.ignoredCont),
        }
    }

    /// The lines of the block, joined by newlines; optional lines are
    /// written only when present.
    pub open spec fn text(self) -> Seq<char> {
        self.text_placement() + self.text_look() + self.text_lists()
    }

    pub open spec fn text_placement(self) -> Seq<char> {
        entry_str("spriteID"@, int_str(self.spriteID as int)) + seq!['\n'] + entry_str(
            "pos"@,
            self.pos.text(),
        ) + seq!['\n'] + entry_str("rot"@, fixed_str(self.rot.micros as int)) + seq!['\n']
            + entry_str("hFlip"@, flag_str(self.hFlip))
    }

    pub open spec fn text_look(self) -> Seq<char> {
        seq!['\n'] + self.color.text() + seq!['\n'] + entry_str("ageRange"@, self.ageRange.text())
            + seq!['\n'] + entry_str("parent"@, int_str(self.parent as int)) + seq!['\n']
            + self.invisHolding.text() + opt_entry('\n', "invisCont"@, opt_flag_str(self.invisCont))
    }

    pub open spec fn text_lists(self) -> Seq<char> {
        opt_entry('\n', "spritesDrawnBehind"@, opt_list_str(list_view(self.spritesDrawnBehind)))
            + opt_entry(
            '\n',
            "spritesAdditiveBlend"@,
            opt_list_str(list_view(self.spritesAdditiveBlend)),
        ) + opt_entry('\n', "ignoredCont"@, opt_list_str(list_view(self.ignoredCont)))
    }

    /// The sprite that a block of lines describes: the identifier is the
    /// value of the first line; for each later name the last line bearing it
    /// counts, and lines of other names are skipped.
    pub open spec fn parse(lines: Seq<Seq<char>>) -> Option<SpriteView> {
        match (
            head_value(lines),
            required(lines, "pos"@),
            required(lines, "rot"@),
            required(lines, "hFlip"@),
            last_line(lines, "color"@),
            required(lines, "ageRange"@),
            required(lines, "parent"@),
            last_line(lines, "invisHolding"@),
        ) {
            (Some(id), Some(p), Some(r), Some(h), Some(c), Some(a), Some(pa), Some(ih)) => match (
                parse_int_within(id, i32::MIN as int, i32::MAX as int),
                DoublePair::parse(p),
                parse_fixed(r),
                flag_of(h),
                ColorData::parse(c),
                DoublePair::parse(a),
                parse_int_within(pa, i32::MIN as int, i32::MAX as int),
                InvisHoldingData::parse(ih),
            ) {
                (
                    Some(id),
                    Some(p),
                    Some(r),
                    Some(h),
                    Some(c),
                    Some(a),
                    Some(pa),
                    Some(ih),
                ) => match (
                    opt_flag(lines, "invisCont"@),
                    opt_list(lines, "spritesDrawnBehind"@),
                    opt_list(lines, "spritesAdditiveBlend"@),
                    opt_list(lines, "ignoredCont"@),
                ) {
                    (Some(ic), Some(db), Some(ab), Some(ig)) => Some(
                        SpriteView {
                            spriteID: id as i32,
                            pos: p,
                            rot: Fixed { micros: r as i64 },
                            hFlip: h,
                            color: c,
                            ageRange: a,
                            parent: pa as i32,
                            invisHolding: ih,
                            invisCont: ic,
                            spritesDrawnBehind: db,
                            spritesAdditiveBlend: ab,
                            ignoredCont: ig,
                        },
                    ),
                    _ => None,
                },
                _ => None,
            },
            _ => None,
        }
    }

    /// Whether `s[lo..hi]` names a line that continues a sprite block.
    pub fn is_sprite_data(s: &Vec<char>, lo: usize, hi: usize) -> (r: bool)
        requires
            lo <= hi <= s@.len(),
        ensures
            r == is_sprite_field(s@.subrange(lo as int, hi as int)),
    {
        eq_word(s, lo, hi, "pos") || eq_word(s, lo, hi, "rot") || eq_word(s, lo, hi, "hFlip")
            || eq_word(s, lo, hi, "color") || eq_word(s, lo, hi, "ageRange") || eq_word(
            s,
            lo,
            hi,
            "parent",
        ) || eq_word(s, lo, hi, "invisHolding") || eq_word(s, lo, hi, "invisCont") || eq_word(
            s,
            lo,
            hi,
            "spritesDrawnBehind",
        ) || eq_word(s, lo, hi, "spritesAdditiveBlend") || eq_word(s, lo, hi, "ignoredCont")
    }

    fn push_placement(&self, out: &mut Vec<char>)
        requires
            self.wf(),
        ensures
            final(out)@ == old(out)@ + self.text_placement(),
    {
        push_str(out, "spriteID=");
        push_int(out, self.spriteID as i64);
        push_str(out, "\npos=");
        self.pos.push_text(out);
        push_str(out, "\nrot=");
        push_fixed(out, self.rot);
        push_str(out, "\nhFlip=");
        push_flag(out, self.hFlip);
        proof {
            reveal_strlit("spriteID=");
            reveal_strlit("spriteID");
            reveal_strlit("\npos=");
            reveal_strlit("pos");
            reveal_strlit("\nrot=");
            reveal_strlit("rot");
            reveal_strlit("\nhFlip=");
            reveal_strlit("hFlip");
        }
        assert(final(out)@ =~= old(out)@ + self.text_placement());
    }

    fn push_look(&self, out: &mut Vec<char>)
        requires
            self.wf(),
        ensures
            final(out)@ == old(out)@ + self.text_look(),
    {
        out.push('\n');
        self.color.push_text(out);
        push_str(out, "\nageRange=");
        self.ageRange.push_text(out);
        push_str(out, "\nparent=");
        push_int(out, self.parent as i64);
        out.push('\n');
        self.invisHolding.push_text(out);
        push_opt_flag(out, '\n', "invisCont", self.invisCont);
        proof {
            reveal_strlit("\nageRange=");
            reveal_strlit("ageRange");
            reveal_strlit("\nparent=");
            reveal_strlit("parent");
        }
        assert(final(out)@ =~= old(out)@ + self.text_look());
    }

    fn push_lists(&self, out: &mut Vec<char>)
        ensures
            final(out)@ == old(out)@ + self.text_lists(),
    {
        push_opt_list(out, "spritesDrawnBehind", &self.spritesDrawnBehind);
        push_opt_list(out, "spritesAdditiveBlend", &self.spritesAdditiveBlend);
        push_opt_list(out, "ignoredCont", &self.ignoredCont);
        assert(final(out)@ =~= old(out)@ + self.text_lists());
    }

    pub fn push_text(&self, out: &mut Vec<char>)
        requires
            self.wf(),
        ensures
            final(out)@ == old(out)@ + self.text(),
    {
        self.push_placement(out);
        self.push_look(out);
        self.push_lists(out);
        assert(final(out)@ =~= old(out)@ + self.text());
    }

    pub fn to_string(&self) -> (r: String)
        requires
            self.wf(),
        ensures
            r@ == self.text(),
    {
        let mut out = Vec::new();
        self.push_text(&mut out);
        crate::text::string_of(&out)
    }

    /// The first required line that the block lacks, in the order pos, rot,
    /// hFlip, color, ageRange, parent, invisHolding.
    pub open spec fn first_absent(lines: Seq<Seq<char>>) -> Option<Part> {
        if required(lines, "pos"@) is None {
            Some(Part::Pos)
        } else if required(lines, "rot"@) is None {
            Some(Part::Rot)
        } else if required(lines, "hFlip"@) is None {
            Some(Part::HFlip)
        } else if last_line(lines, "color"@) is None {
            Some(Part::Color)
        } else if required(lines, "ageRange"@) is None {
            Some(Part::AgeRange)
        } else if required(lines, "parent"@) is None {
            Some(Part::Parent)
        } else if last_line(lines, "invisHolding"@) is None {
            Some(Part::InvisHolding)
        } else {
            None
        }
    }

    /// Reads the sprite from the block whose lines are `lines`, the first
    /// being its `spriteID` line.
    pub fn read(s: &Vec<char>, lines: &Vec<(usize, usize)>) -> (r: Result<SpriteData, FormatError>)
        requires
            ranges_within(lines@, 0, s@.len() as int),
            lines@.len() >= 1,
        ensures
            r is Err <==> Self::parse(pieces(s@, lines@)) is None,
            r matches Ok(d) ==> d.wf() && Self::parse(pieces(s@, lines@)) == Some(d.view()),
            head_value(pieces(s@, lines@)) is Some && Self::first_absent(pieces(s@, lines@)) is Some
                ==> r == Err::<SpriteData, FormatError>(
                FormatError::Missing(Self::first_absent(pieces(s@, lines@))->0),
            ),
    {
        let (a, b) = match head_range(s, lines) {
            Ok(p) => p,
            Err(e) => return Err(e),
        };
        let pos_r = required_range(s, lines, "pos");
        let rot_r = required_range(s, lines, "rot");
        let hflip_r = required_range(s, lines, "hFlip");
        let color_r = find_line(s, lines, "color");
        let age_r = required_range(s, lines, "ageRange");
        let parent_r = required_range(s, lines, "parent");
        let invis_r = find_line(s, lines, "invisHolding");
        let pos_r = match pos_r {
            Some(p) => p,
            None => return Err(FormatError::Missing(Part::Pos)),
        };
        let rot_r = match rot_r {
            Some(p) => p,
            None => return Err(FormatError::Missing(Part::Rot)),
        };
        let hflip_r = match hflip_r {
            Some(p) => p,
            None => return Err(FormatError::Missing(Part::HFlip)),
        };
        let color_r = match color_r {
            Some(p) => p,
            None => return Err(FormatError::Missing(Part::Color)),
        };
        let age_r = match age_r {
            Some(p) => p,
            None => return Err(FormatError::Missing(Part::AgeRange)),
        };
        let parent_r = match parent_r {
            Some(p) => p,
            None => return Err(FormatError::Missing(Part::Parent)),
        };
        let invis_r = match invis_r {
            Some(p) => p,
            None => return Err(FormatError::Missing(Part::InvisHolding)),
        };
        let id = read_int(s, a, b, i32::MIN as i64, i32::MAX as i64);
        let pos = DoublePair::read(s, pos_r.0, pos_r.1);
        let rot = read_fixed(s, rot_r.0, rot_r.1);
        let hflip = read_flag(s, hflip_r.0, hflip_r.1);
        let color = ColorData::read(s, color_r.0, color_r.1);
        let age = DoublePair::read(s, age_r.0, age_r.1);
        let parent = read_int(s, parent_r.0, parent_r.1, i32::MIN as i64, i32::MAX as i64);
        let invis = InvisHoldingData::read(s, invis_r.0, invis_r.1);
        let (id, pos, rot, hflip, color, age, parent, invis) = match (
            id,
            pos,
            rot,
            hflip,
            color,
            age,
            parent,
            invis,
        ) {
            (Some(id), Ok(p), Some(r), Some(h), Ok(c), Ok(ag), Some(pa), Ok(ih)) => (
                id,
                p,
                r,
                h,
                c,
                ag,
                pa,
                ih,
            ),
            _ => return Err(FormatError::Malformed),
        };
        let ic = match named_flag(s, lines, "invisCont") {
            Ok(v) => v,
            Err(e) => return Err(e),
        };
        let db = match read_opt_list(s, lines, "spritesDrawnBehind") {
            Ok(v) => v,
            Err(e) => return Err(e),
        };
        let ab = match read_opt_list(s, lines, "spritesAdditiveBlend") {
            Ok(v) => v,
            Err(e) => return Err(e),
        };
        let ig = match read_opt_list(s, lines, "ignoredCont") {
            Ok(v) => v,
            Err(e) => return Err(e),
        };
        Ok(
            SpriteData {
                spriteID: id as i32,
                pos,
                rot,
                hFlip: hflip,
                color,
                ageRange: age,
                parent: parent as i32,
                invisHolding: invis,
                invisCont: ic,
                spritesDrawnBehind: db,
                spritesAdditiveBlend: ab,
                ignoredCont: ig,
            },
        )
    }
}

/// The value range of the last line named `w`, when it has one.
fn required_range(s: &Vec<char>, lines: &Vec<(usize, usize)>, w: &str) -> (r: Option<
    (usize, usize),
>)
    requires
        ranges_within(lines@, 0, s@.len() as int),
        lines@.len() >= 1,
    ensures
        r is None <==> required(pieces(s@, lines@), w@) is None,
        r matches Some(p) ==> p.0 <= p.1 <= s@.len() && required(pieces(s@, lines@), w@) == Some(
            s@.subrange(p.0 as int, p.1 as int),
        ),
{
    match find_named(s, lines, w) {
        Some(Some(p)) => Some(p),
        _ => None,
    }
}

fn read_opt_list(s: &Vec<char>, lines: &Vec<(usize, usize)>, w: &str) -> (r: Result<
    Option<Vec<i8>>,
    FormatError,
>)
    requires
        ranges_within(lines@, 0, s@.len() as int),
        lines@.len() >= 1,
    ensures
        r is Err <==> opt_list(pieces(s@, lines@), w@) is None,
        r matches Ok(v) ==> opt_list(pieces(s@, lines@), w@) == Some(list_view(v)),
{
    match find_named(s, lines, w) {
        None => Ok(None),
        Some(None) => Err(FormatError::Malformed),
        Some(Some((a, b))) => Ok(Some(read_i8_list(s, a, b))),
    }
}

fn push_opt_list(out: &mut Vec<char>, w: &str, v: &Option<Vec<i8>>)
    ensures
        final(out)@ == old(out)@ + opt_entry('\n', w@, opt_list_str(list_view(*v))),
{
    match v {
        Some(x) => {
            crate::fields::push_entry_start(out, '\n', w);
            let wide = widen_i8s(x);
            push_int_list(out, &wide);
            assert(final(out)@ =~= old(out)@ + opt_entry('\n', w@, opt_list_str(list_view(*v))));
        },
        None => {
            assert(final(out)@ =~= old(out)@ + opt_entry('\n', w@, opt_list_str(list_view(*v))));
        },
    }
}


proof fn lemma_free_concat(a: Seq<char>, b: Seq<char>, c: char)
    requires
        free_of(a, c),
        free_of(b, c),
    ensures
        free_of(a + b, c),
{
    assert forall|i: int| 0 <= i < (a + b).len() implies (a + b)[i] != c by {
        if i < a.len() {
            assert((a + b)[i] == a[i]);
        } else {
            assert((a + b)[i] == b[i - a.len()]);
        }
    }
}

proof fn lemma_numeric_line(t: Seq<char>)
    requires
        crate::entries::numeric_text(t),
    ensures
        free_of(t, '\n'),
        free_of(t, '='),
{
    crate::entries::lemma_numeric_free(t, '\n');
    crate::entries::lemma_numeric_free(t, '=');
}

/// The names of a sprite's lines differ from one another.
proof fn lemma_sprite_names_differ()
    ensures
        "spriteID"@ != "pos"@,
        "spriteID"@ != "rot"@,
        "spriteID"@ != "hFlip"@,
        "spriteID"@ != "color"@,
        "spriteID"@ != "ageRange"@,
        "spriteID"@ != "parent"@,
        "spriteID"@ != "invisHolding"@,
        "spriteID"@ != "invisCont"@,
        "spriteID"@ != "spritesDrawnBehind"@,
        "spriteID"@ != "spritesAdditiveBlend"@,
        "spriteID"@ != "ignoredCont"@,
        "pos"@ != "rot"@,
        "pos"@ != "hFlip"@,
        "pos"@ != "color"@,
        "pos"@ != "ageRange"@,
        "pos"@ != "parent"@,
        "pos"@ != "invisHolding"@,
        "pos"@ != "invisCont"@,
        "pos"@ != "spritesDrawnBehind"@,
        "pos"@ != "spritesAdditiveBlend"@,
        "pos"@ != "ignoredCont"@,
        "rot"@ != "hFlip"@,
        "rot"@ != "color"@,
        "rot"@ != "ageRange"@,
        "rot"@ != "parent"@,
        "rot"@ != "invisHolding"@,
        "rot"@ != "invisCont"@,
        "rot"@ != "spritesDrawnBehind"@,
        "rot"@ != "spritesAdditiveBlend"@,
        "rot"@ != "ignoredCont"@,
        "hFlip"@ != "color"@,
        "hFlip"@ != "ageRange"@,
        "hFlip"@ != "parent"@,
        "hFlip"@ != "invisHolding"@,
        "hFlip"@ != "invisCont"@,
        "hFlip"@ != "spritesDrawnBehind"@,
        "hFlip"@ != "spritesAdditiveBlend"@,
        "hFlip"@ != "ignoredCont"@,
        "color"@ != "ageRange"@,
        "color"@ != "parent"@,
        "color"@ != "invisHolding"@,
        "color"@ != "invisCont"@,
        "color"@ != "spritesDrawnBehind"@,
        "color"@ != "spritesAdditiveBlend"@,
        "color"@ != "ignoredCont"@,
        "ageRange"@ != "parent"@,
        "ageRange"@ != "invisHolding"@,
        "ageRange"@ != "invisCont"@,
        "ageRange"@ != "spritesDrawnBehind"@,
        "ageRange"@ != "spritesAdditiveBlend"@,
        "ageRange"@ != "ignoredCont"@,
        "parent"@ != "invisHolding"@,
        "parent"@ != "invisCont"@,
        "parent"@ != "spritesDrawnBehind"@,
        "parent"@ != "spritesAdditiveBlend"@,
        "parent"@ != "ignoredCont"@,
        "invisHolding"@ != "invisCont"@,
        "invisHolding"@ != "spritesDrawnBehind"@,
        "invisHolding"@ != "spritesAdditiveBlend"@,
        "invisHolding"@ != "ignoredCont"@,
        "invisCont"@ != "spritesDrawnBehind"@,
        "invisCont"@ != "spritesAdditiveBlend"@,
        "invisCont"@ != "ignoredCont"@,
        "spritesDrawnBehind"@ != "spritesAdditiveBlend"@,
        "spritesDrawnBehind"@ != "ignoredCont"@,
        "spritesAdditiveBlend"@ != "ignoredCont"@,
{
    assert("spriteID"@ != "pos"@) by { reveal_strlit("spriteID"); reveal_strlit("pos"); assert("spriteID"@.len() != "pos"@.len()); }
    assert("spriteID"@ != "rot"@) by { reveal_strlit("spriteID"); reveal_strlit("rot"); assert("spriteID"@.len() != "rot"@.len()); }
    assert("spriteID"@ != "hFlip"@) by { reveal_strlit("spriteID"); reveal_strlit("hFlip"); assert("spriteID"@.len() != "hFlip"@.len()); }
    assert("spriteID"@ != "color"@) by { reveal_strlit("spriteID"); reveal_strlit("color"); assert("spriteID"@.len() != "color"@.len()); }
    assert("spriteID"@ != "ageRange"@) by { reveal_strlit("spriteID"); reveal_strlit("ageRange"); assert("spriteID"@[0] != "ageRange"@[0]); }
    assert("spriteID"@ != "parent"@) by { reveal_strlit("spriteID"); reveal_strlit("parent"); assert("spriteID"@.len() != "parent"@.len()); }
    assert("spriteID"@ != "invisHolding"@) by { reveal_strlit("spriteID"); reveal_strlit("invisHolding"); assert("spriteID"@.len() != "invisHolding"@.len()); }
    assert("spriteID"@ != "invisCont"@) by { reveal_strlit("spriteID"); reveal_strlit("invisCont"); assert("spriteID"@.len() != "invisCont"@.len()); }
    assert("spriteID"@ != "spritesDrawnBehind"@) by { reveal_strlit("spriteID"); reveal_strlit("spritesDrawnBehind"); assert("spriteID"@.len() != "spritesDrawnBehind"@.len()); }
    assert("spriteID"@ != "spritesAdditiveBlend"@) by { reveal_strlit("spriteID"); reveal_strlit("spritesAdditiveBlend"); assert("spriteID"@.len() != "spritesAdditiveBlend"@.len()); }
    assert("spriteID"@ != "ignoredCont"@) by { reveal_strlit("spriteID"); reveal_strlit("ignoredCont"); assert("spriteID"@.len() != "ignoredCont"@.len()); }
    assert("pos"@ != "rot"@) by { reveal_strlit("pos"); reveal_strlit("rot"); assert("pos"@[0] != "rot"@[0]); }
    assert("pos"@ != "hFlip"@) by { reveal_strlit("pos"); reveal_strlit("hFlip"); assert("pos"@.len() != "hFlip"@.len()); }
    assert("pos"@ != "color"@) by { reveal_strlit("pos"); reveal_strlit("color"); assert("pos"@.len() != "color"@.len()); }
    assert("pos"@ != "ageRange"@) by { reveal_strlit("pos"); reveal_strlit("ageRange"); assert("pos"@.len() != "ageRange"@.len()); }
    assert("pos"@ != "parent"@) by { reveal_strlit("pos"); reveal_strlit("parent"); assert("pos"@.len() != "parent"@.len()); }
    assert("pos"@ != "invisHolding"@) by { reveal_strlit("pos"); reveal_strlit("invisHolding"); assert("pos"@.len() != "invisHolding"@.len()); }
    assert("pos"@ != "invisCont"@) by { reveal_strlit("pos"); reveal_strlit("invisCont"); assert("pos"@.len() != "invisCont"@.len()); }
    assert("pos"@ != "spritesDrawnBehind"@) by { reveal_strlit("pos"); reveal_strlit("spritesDrawnBehind"); assert("pos"@.len() != "spritesDrawnBehind"@.len()); }
    assert("pos"@ != "spritesAdditiveBlend"@) by { reveal_strlit("pos"); reveal_strlit("spritesAdditiveBlend"); assert("pos"@.len() != "spritesAdditiveBlend"@.len()); }
    assert("pos"@ != "ignoredCont"@) by { reveal_strlit("pos"); reveal_strlit("ignoredCont"); assert("pos"@.len() != "ignoredCont"@.len()); }
    assert("rot"@ != "hFlip"@) by { reveal_strlit("rot"); reveal_strlit("hFlip"); assert("rot"@.len() != "hFlip"@.len()); }
    assert("rot"@ != "color"@) by { reveal_strlit("rot"); reveal_strlit("color"); assert("rot"@.len() != "color"@.len()); }
    assert("rot"@ != "ageRange"@) by { reveal_strlit("rot"); reveal_strlit("ageRange"); assert("rot"@.len() != "ageRange"@.len()); }
    assert("rot"@ != "parent"@) by { reveal_strlit("rot"); reveal_strlit("parent"); assert("rot"@.len() != "parent"@.len()); }
    assert("rot"@ != "invisHolding"@) by { reveal_strlit("rot"); reveal_strlit("invisHolding"); assert("rot"@.len() != "invisHolding"@.len()); }
    assert("rot"@ != "invisCont"@) by { reveal_strlit("rot"); reveal_strlit("invisCont"); assert("rot"@.len() != "invisCont"@.len()); }
    assert("rot"@ != "spritesDrawnBehind"@) by { reveal_strlit("rot"); reveal_strlit("spritesDrawnBehind"); assert("rot"@.len() != "spritesDrawnBehind"@.len()); }
    assert("rot"@ != "spritesAdditiveBlend"@) by { reveal_strlit("rot"); reveal_strlit("spritesAdditiveBlend"); assert("rot"@.len() != "spritesAdditiveBlend"@.len()); }
    assert("rot"@ != "ignoredCont"@) by { reveal_strlit("rot"); reveal_strlit("ignoredCont"); assert("rot"@.len() != "ignoredCont"@.len()); }
    assert("hFlip"@ != "color"@) by { reveal_strlit("hFlip"); reveal_strlit("color"); assert("hFlip"@[0] != "color"@[0]); }
    assert("hFlip"@ != "ageRange"@) by { reveal_strlit("hFlip"); reveal_strlit("ageRange"); assert("hFlip"@.len() != "ageRange"@.len()); }
    assert("hFlip"@ != "parent"@) by { reveal_strlit("hFlip"); reveal_strlit("parent"); assert("hFlip"@.len() != "parent"@.len()); }
    assert("hFlip"@ != "invisHolding"@) by { reveal_strlit("hFlip"); reveal_strlit("invisHolding"); assert("hFlip"@.len() != "invisHolding"@.len()); }
    assert("hFlip"@ != "invisCont"@) by { reveal_strlit("hFlip"); reveal_strlit("invisCont"); assert("hFlip"@.len() != "invisCont"@.len()); }
    assert("hFlip"@ != "spritesDrawnBehind"@) by { reveal_strlit("hFlip"); reveal_strlit("spritesDrawnBehind"); assert("hFlip"@.len() != "spritesDrawnBehind"@.len()); }
    assert("hFlip"@ != "spritesAdditiveBlend"@) by { reveal_strlit("hFlip"); reveal_strlit("spritesAdditiveBlend"); assert("hFlip"@.len() != "spritesAdditiveBlend"@.len()); }
    assert("hFlip"@ != "ignoredCont"@) by { reveal_strlit("hFlip"); reveal_strlit("ignoredCont"); assert("hFlip"@.len() != "ignoredCont"@.len()); }
    assert("color"@ != "ageRange"@) by { reveal_strlit("color"); reveal_strlit("ageRange"); assert("color"@.len() != "ageRange"@.len()); }
    assert("color"@ != "parent"@) by { reveal_strlit("color"); reveal_strlit("parent"); assert("color"@.len() != "parent"@.len()); }
    assert("color"@ != "invisHolding"@) by { reveal_strlit("color"); reveal_strlit("invisHolding"); assert("color"@.len() != "invisHolding"@.len()); }
    assert("color"@ != "invisCont"@) by { reveal_strlit("color"); reveal_strlit("invisCont"); assert("color"@.len() != "invisCont"@.len()); }
    assert("color"@ != "spritesDrawnBehind"@) by { reveal_strlit("color"); reveal_strlit("spritesDrawnBehind"); assert("color"@.len() != "spritesDrawnBehind"@.len()); }
    assert("color"@ != "spritesAdditiveBlend"@) by { reveal_strlit("color"); reveal_strlit("spritesAdditiveBlend"); assert("color"@.len() != "spritesAdditiveBlend"@.len()); }
    assert("color"@ != "ignoredCont"@) by { reveal_strlit("color"); reveal_strlit("ignoredCont"); assert("color"@.len() != "ignoredCont"@.len()); }
    assert("ageRange"@ != "parent"@) by { reveal_strlit("ageRange"); reveal_strlit("parent"); assert("ageRange"@.len() != "parent"@.len()); }
    assert("ageRange"@ != "invisHolding"@) by { reveal_strlit("ageRange"); reveal_strlit("invisHolding"); assert("ageRange"@.len() != "invisHolding"@.len()); }
    assert("ageRange"@ != "invisCont"@) by { reveal_strlit("ageRange"); reveal_strlit("invisCont"); assert("ageRange"@.len() != "invisCont"@.len()); }
    assert("ageRange"@ != "spritesDrawnBehind"@) by { reveal_strlit("ageRange"); reveal_strlit("spritesDrawnBehind"); assert("ageRange"@.len() != "spritesDrawnBehind"@.len()); }
    assert("ageRange"@ != "spritesAdditiveBlend"@) by { reveal_strlit("ageRange"); reveal_strlit("spritesAdditiveBlend"); assert("ageRange"@.len() != "spritesAdditiveBlend"@.len()); }
    assert("ageRange"@ != "ignoredCont"@) by { reveal_strlit("ageRange"); reveal_strlit("ignoredCont"); assert("ageRange"@.len() != "ignoredCont"@.len()); }
    assert("parent"@ != "invisHolding"@) by { reveal_strlit("parent"); reveal_strlit("invisHolding"); assert("parent"@.len() != "invisHolding"@.len()); }
    assert("parent"@ != "invisCont"@) by { reveal_strlit("parent"); reveal_strlit("invisCont"); assert("parent"@.len() != "invisCont"@.len()); }
    assert("parent"@ != "spritesDrawnBehind"@) by { reveal_strlit("parent"); reveal_strlit("spritesDrawnBehind"); assert("parent"@.len() != "spritesDrawnBehind"@.len()); }
    assert("parent"@ != "spritesAdditiveBlend"@) by { reveal_strlit("parent"); reveal_strlit("spritesAdditiveBlend"); assert("parent"@.len() != "spritesAdditiveBlend"@.len()); }
    assert("parent"@ != "ignoredCont"@) by { reveal_strlit("parent"); reveal_strlit("ignoredCont"); assert("parent"@.len() != "ignoredCont"@.len()); }
    assert("invisHolding"@ != "invisCont"@) by { reveal_strlit("invisHolding"); reveal_strlit("invisCont"); assert("invisHolding"@.len() != "invisCont"@.len()); }
    assert("invisHolding"@ != "spritesDrawnBehind"@) by { reveal_strlit("invisHolding"); reveal_strlit("spritesDrawnBehind"); assert("invisHolding"@.len() != "spritesDrawnBehind"@.len()); }
    assert("invisHolding"@ != "spritesAdditiveBlend"@) by { reveal_strlit("invisHolding"); reveal_strlit("spritesAdditiveBlend"); assert("invisHolding"@.len() != "spritesAdditiveBlend"@.len()); }
    assert("invisHolding"@ != "ignoredCont"@) by { reveal_strlit("invisHolding"); reveal_strlit("ignoredCont"); assert("invisHolding"@.len() != "ignoredCont"@.len()); }
    assert("invisCont"@ != "spritesDrawnBehind"@) by { reveal_strlit("invisCont"); reveal_strlit("spritesDrawnBehind"); assert("invisCont"@.len() != "spritesDrawnBehind"@.len()); }
    assert("invisCont"@ != "spritesAdditiveBlend"@) by { reveal_strlit("invisCont"); reveal_strlit("spritesAdditiveBlend"); assert("invisCont"@.len() != "spritesAdditiveBlend"@.len()); }
    assert("invisCont"@ != "ignoredCont"@) by { reveal_strlit("invisCont"); reveal_strlit("ignoredCont"); assert("invisCont"@.len() != "ignoredCont"@.len()); }
    assert("spritesDrawnBehind"@ != "spritesAdditiveBlend"@) by { reveal_strlit("spritesDrawnBehind"); reveal_strlit("spritesAdditiveBlend"); assert("spritesDrawnBehind"@.len() != "spritesAdditiveBlend"@.len()); }
    assert("spritesDrawnBehind"@ != "ignoredCont"@) by { reveal_strlit("spritesDrawnBehind"); reveal_strlit("ignoredCont"); assert("spritesDrawnBehind"@.len() != "ignoredCont"@.len()); }
    assert("spritesAdditiveBlend"@ != "ignoredCont"@) by { reveal_strlit("spritesAdditiveBlend"); reveal_strlit("ignoredCont"); assert("spritesAdditiveBlend"@.len() != "ignoredCont"@.len()); }
}

/// A line that is `name=value`, free of newlines, with that name and value.
pub open spec fn plain_line(l: Seq<char>, name: Seq<char>, v: Seq<char>) -> bool {
    &&& free_of(l, '\n')
    &&& entry_name(l) == name
    &&& entry_value(l) == Some(v)
}

proof fn lemma_plain(name: Seq<char>, v: Seq<char>)
    requires
        free_of(name, '\n'),
        free_of(name, '='),
        free_of(v, '\n'),
        free_of(v, '='),
    ensures
        plain_line(entry_str(name, v), name, v),
{
    lemma_entry(name, v);
    crate::entries::lemma_entry_free(name, v, '\n');
}

proof fn lemma_pair_line(name: Seq<char>, p: DoublePair)
    requires
        p.wf(),
        free_of(name, '\n'),
        free_of(name, '='),
    ensures
        plain_line(entry_str(name, p.text()), name, p.text()),
        DoublePair::parse(p.text()) == Some(p),
{
    let a = fixed_str(p.0.micros as int);
    let b = fixed_str(p.1.micros as int);
    crate::entries::lemma_fixed_numeric(p.0.micros as int);
    crate::entries::lemma_fixed_numeric(p.1.micros as int);
    lemma_numeric_line(a);
    lemma_numeric_line(b);
    assert(free_of(seq![','], '\n'));
    assert(free_of(seq![','], '='));
    lemma_free_concat(a, seq![','], '\n');
    lemma_free_concat(a + seq![','], b, '\n');
    lemma_free_concat(a, seq![','], '=');
    lemma_free_concat(a + seq![','], b, '=');
    crate::lists::lemma_double_pair_round_trip(p);
    lemma_plain(name, p.text());
}

proof fn lemma_number_line(name: Seq<char>, t: Seq<char>)
    requires
        crate::entries::numeric_text(t),
        free_of(name, '\n'),
        free_of(name, '='),
    ensures
        plain_line(entry_str(name, t), name, t),
{
    lemma_numeric_line(t);
    lemma_plain(name, t);
}


proof fn lemma_split_keeps_first(x: Seq<char>, y: Seq<char>, c: char)
    requires
        split(x, c).len() >= 2,
    ensures
        split(x + y, c).len() >= 2,
        split(x + y, c)[0] == split(x, c)[0],
    decreases y.len(),
{
    if y.len() == 0 {
        assert(x + y =~= x);
    } else {
        let y1 = y.drop_last();
        lemma_split_keeps_first(x, y1, c);
        assert((x + y).drop_last() =~= x + y1);
    }
}

/// The name of an entry is the text before its first `=`, whatever follows.
proof fn lemma_entry_name_prefix(name: Seq<char>, rest: Seq<char>)
    requires
        free_of(name, '='),
    ensures
        entry_name(name + seq!['='] + rest) == name,
{
    lemma_split_free(name, '=');
    let x = name + seq!['='];
    assert(x.drop_last() =~= name);
    lemma_split_keeps_first(x, rest, '=');
}

proof fn lemma_color_line(c: ColorData)
    requires
        c.wf(),
    ensures
        free_of(c.text(), '\n'),
        entry_name(c.text()) == "color"@,
        ColorData::parse(c.text()) == Some(c),
{
    let r = fixed_str(c.red.micros as int);
    let g = fixed_str(c.green.micros as int);
    let b = fixed_str(c.blue.micros as int);
    crate::entries::lemma_fixed_numeric(c.red.micros as int);
    crate::entries::lemma_fixed_numeric(c.green.micros as int);
    crate::entries::lemma_fixed_numeric(c.blue.micros as int);
    lemma_numeric_line(r);
    lemma_numeric_line(g);
    lemma_numeric_line(b);
    reveal_strlit("color=");
    assert(free_of("color="@, '\n'));
    assert(free_of(seq![','], '\n'));
    lemma_free_concat("color="@, r, '\n');
    lemma_free_concat("color="@ + r, seq![','], '\n');
    lemma_free_concat("color="@ + r + seq![','], g, '\n');
    lemma_free_concat("color="@ + r + seq![','] + g, seq![','], '\n');
    lemma_free_concat("color="@ + r + seq![','] + g + seq![','], b, '\n');
    crate::lists::lemma_color_round_trip(c);
}

proof fn lemma_invis_line(h: InvisHoldingData)
    ensures
        free_of(h.text(), '\n'),
        entry_name(h.text()) == "invisHolding"@,
        InvisHoldingData::parse(h.text()) == Some(h),
{
    reveal_strlit("invisHolding");
    reveal_strlit("invisWorn");
    reveal_strlit("behindSlots");
    let w = int_str(h.invisWorn as int);
    let f1 = flag_str(h.invisHolding);
    let f2 = flag_str(h.behindSlots);
    crate::entries::lemma_int_numeric(h.invisWorn as int);
    crate::entries::lemma_flag_numeric(h.invisHolding);
    crate::entries::lemma_flag_numeric(h.behindSlots);
    lemma_numeric_line(w);
    lemma_numeric_line(f1);
    lemma_numeric_line(f2);
    let b = opt_entry(',', "invisWorn"@, Some(w));
    let c = opt_entry(',', "behindSlots"@, Some(f2));
    assert(free_of("invisHolding"@, '\n'));
    assert(free_of("invisHolding"@, '='));
    assert(free_of("invisWorn"@, '\n'));
    assert(free_of("behindSlots"@, '\n'));
    assert(free_of(seq![','], '\n'));
    assert(free_of(seq!['='], '\n'));
    let rest = f1 + b + c;
    assert(b =~= seq![','] + "invisWorn"@ + seq!['='] + w);
    assert(c =~= seq![','] + "behindSlots"@ + seq!['='] + f2);
    lemma_free_concat(seq![','], "invisWorn"@, '\n');
    lemma_free_concat(seq![','] + "invisWorn"@, seq!['='], '\n');
    lemma_free_concat(seq![','] + "invisWorn"@ + seq!['='], w, '\n');
    lemma_free_concat(seq![','], "behindSlots"@, '\n');
    lemma_free_concat(seq![','] + "behindSlots"@, seq!['='], '\n');
    lemma_free_concat(seq![','] + "behindSlots"@ + seq!['='], f2, '\n');
    lemma_free_concat(f1, b, '\n');
    lemma_free_concat(f1 + b, c, '\n');
    lemma_free_concat("invisHolding"@, seq!['='], '\n');
    lemma_free_concat("invisHolding"@ + seq!['='], rest, '\n');
    assert(h.text() =~= "invisHolding"@ + seq!['='] + rest);
    lemma_entry_name_prefix("invisHolding"@, rest);
    crate::fields::lemma_invis_holding_round_trip(h);
}

/// The eight lines that every sprite block has.
pub open spec fn fixed_lines(d: SpriteData) -> Seq<Seq<char>> {
    seq![
        entry_str("spriteID"@, int_str(d.spriteID as int)),
        entry_str("pos"@, d.pos.text()),
        entry_str("rot"@, fixed_str(d.rot.micros as int)),
        entry_str("hFlip"@, flag_str(d.hFlip)),
        d.color.text(),
        entry_str("ageRange"@, d.ageRange.text()),
        entry_str("parent"@, int_str(d.parent as int)),
        d.invisHolding.text(),
    ]
}

/// Eight lines joined by newlines.
pub open spec fn join8(l: Seq<Seq<char>>) -> Seq<char> {
    l[0] + seq!['\n'] + l[1] + seq!['\n'] + l[2] + seq!['\n'] + l[3] + seq!['\n'] + l[4] + seq!['\n'] + l[5]
        + seq!['\n'] + l[6] + seq!['\n'] + l[7]
}

proof fn lemma_split_join8(l: Seq<Seq<char>>)
    requires
        l.len() == 8,
        forall|k: int| 0 <= k < 8 ==> free_of(#[trigger] l[k], '\n'),
    ensures
        split(join8(l), '\n') == l,
{
    assert(free_of(l[0], '\n'));
    lemma_split_free(l[0], '\n');
    let t1 = l[0] + seq!['\n'] + l[1];
    lemma_split_sep(l[0], l[1], '\n');
    let t2 = t1 + seq!['\n'] + l[2];
    lemma_split_sep(t1, l[2], '\n');
    let t3 = t2 + seq!['\n'] + l[3];
    lemma_split_sep(t2, l[3], '\n');
    let t4 = t3 + seq!['\n'] + l[4];
    lemma_split_sep(t3, l[4], '\n');
    let t5 = t4 + seq!['\n'] + l[5];
    lemma_split_sep(t4, l[5], '\n');
    let t6 = t5 + seq!['\n'] + l[6];
    lemma_split_sep(t5, l[6], '\n');
    lemma_split_sep(t6, l[7], '\n');
    assert(split(join8(l), '\n') =~= l);
}

/// The fixed lines of a sprite: each free of newlines, with its name, and
/// reading back to the sprite's values.
proof fn lemma_fixed_lines(d: SpriteData)
    requires
        d.wf(),
    ensures
        forall|k: int| 0 <= k < 8 ==> free_of(#[trigger] fixed_lines(d)[k], '\n'),
        plain_line(fixed_lines(d)[0], "spriteID"@, int_str(d.spriteID as int)),
        plain_line(fixed_lines(d)[1], "pos"@, d.pos.text()),
        plain_line(fixed_lines(d)[2], "rot"@, fixed_str(d.rot.micros as int)),
        plain_line(fixed_lines(d)[3], "hFlip"@, flag_str(d.hFlip)),
        entry_name(fixed_lines(d)[4]) == "color"@,
        plain_line(fixed_lines(d)[5], "ageRange"@, d.ageRange.text()),
        plain_line(fixed_lines(d)[6], "parent"@, int_str(d.parent as int)),
        entry_name(fixed_lines(d)[7]) == "invisHolding"@,
        parse_int_within(int_str(d.spriteID as int), i32::MIN as int, i32::MAX as int) == Some(d.spriteID as int),
        DoublePair::parse(d.pos.text()) == Some(d.pos),
        parse_fixed(fixed_str(d.rot.micros as int)) == Some(d.rot.micros as int),
        flag_of(flag_str(d.hFlip)) == Some(d.hFlip),
        ColorData::parse(d.color.text()) == Some(d.color),
        DoublePair::parse(d.ageRange.text()) == Some(d.ageRange),
        parse_int_within(int_str(d.parent as int), i32::MIN as int, i32::MAX as int) == Some(d.parent as int),
        InvisHoldingData::parse(d.invisHolding.text()) == Some(d.invisHolding),
{
    reveal_strlit("spriteID");
    reveal_strlit("pos");
    reveal_strlit("rot");
    reveal_strlit("hFlip");
    reveal_strlit("ageRange");
    reveal_strlit("parent");
    assert(free_of("spriteID"@, '\n') && free_of("spriteID"@, '='));
    assert(free_of("pos"@, '\n') && free_of("pos"@, '='));
    assert(free_of("rot"@, '\n') && free_of("rot"@, '='));
    assert(free_of("hFlip"@, '\n') && free_of("hFlip"@, '='));
    assert(free_of("ageRange"@, '\n') && free_of("ageRange"@, '='));
    assert(free_of("parent"@, '\n') && free_of("parent"@, '='));
    crate::fields::lemma_int_text(d.spriteID as int);
    crate::fields::lemma_int_text(d.parent as int);
    crate::fields::lemma_fixed_text(d.rot.micros as int);
    crate::fields::lemma_flag_text(d.hFlip);
    crate::entries::lemma_int_numeric(d.spriteID as int);
    crate::entries::lemma_int_numeric(d.parent as int);
    crate::entries::lemma_fixed_numeric(d.rot.micros as int);
    crate::entries::lemma_flag_numeric(d.hFlip);
    lemma_number_line("spriteID"@, int_str(d.spriteID as int));
    lemma_pair_line("pos"@, d.pos);
    lemma_number_line("rot"@, fixed_str(d.rot.micros as int));
    lemma_number_line("hFlip"@, flag_str(d.hFlip));
    lemma_color_line(d.color);
    lemma_pair_line("ageRange"@, d.ageRange);
    lemma_number_line("parent"@, int_str(d.parent as int));
    lemma_invis_line(d.invisHolding);
    let l = fixed_lines(d);
    assert forall|k: int| 0 <= k < 8 implies free_of(#[trigger] l[k], '\n') by {
        if k == 0 {} else if k == 1 {} else if k == 2 {} else if k == 3 {} else if k == 4 {} else if k == 5 {} else if k == 6 {} else {}
    }
}

/// Looking up each name among the fixed lines of a sprite.
proof fn lemma_fixed_lookup(d: SpriteData)
    requires
        d.wf(),
    ensures
        last_named(fixed_lines(d), "pos"@) == Some(Some(d.pos.text())),
        last_named(fixed_lines(d), "rot"@) == Some(Some(fixed_str(d.rot.micros as int))),
        last_named(fixed_lines(d), "hFlip"@) == Some(Some(flag_str(d.hFlip))),
        last_named(fixed_lines(d), "ageRange"@) == Some(Some(d.ageRange.text())),
        last_named(fixed_lines(d), "parent"@) == Some(Some(int_str(d.parent as int))),
        last_line(fixed_lines(d), "color"@) == Some(d.color.text()),
        last_line(fixed_lines(d), "invisHolding"@) == Some(d.invisHolding.text()),
        last_named(fixed_lines(d), "invisCont"@) is None,
        last_named(fixed_lines(d), "spritesDrawnBehind"@) is None,
        last_named(fixed_lines(d), "spritesAdditiveBlend"@) is None,
        last_named(fixed_lines(d), "ignoredCont"@) is None,
{
    lemma_fixed_lines(d);
    lemma_sprite_names_differ();
    let l = fixed_lines(d);
    assert(l.drop_last() =~= l.subrange(0, 7));
    assert(l.subrange(0, 7).drop_last() =~= l.subrange(0, 6));
    assert(l.subrange(0, 6).drop_last() =~= l.subrange(0, 5));
    assert(l.subrange(0, 5).drop_last() =~= l.subrange(0, 4));
    assert(l.subrange(0, 4).drop_last() =~= l.subrange(0, 3));
    assert(l.subrange(0, 3).drop_last() =~= l.subrange(0, 2));
    assert(l.subrange(0, 2).drop_last() =~= l.subrange(0, 1));
    reveal_with_fuel(last_named, 9);
    reveal_with_fuel(last_line, 9);
}


/// A line appended after a newline becomes the last piece.
proof fn lemma_append_line(prefix: Seq<char>, line: Seq<char>)
    requires
        free_of(line, '\n'),
    ensures
        split(prefix + seq!['\n'] + line, '\n') == split(prefix, '\n').push(line),
        forall|n: Seq<char>|
            #[trigger] last_named(split(prefix + seq!['\n'] + line, '\n'), n) == if entry_name(line)
                == n {
                Some(entry_value(line))
            } else {
                last_named(split(prefix, '\n'), n)
            },
        forall|n: Seq<char>|
            #[trigger] last_line(split(prefix + seq!['\n'] + line, '\n'), n) == if entry_name(line)
                == n {
                Some(line)
            } else {
                last_line(split(prefix, '\n'), n)
            },
{
    crate::codec::lemma_split_len(prefix, '\n');
    lemma_split_sep(prefix, line, '\n');
    assert(split(prefix, '\n').push(line).drop_last() =~= split(prefix, '\n'));
}

/// As [`lemma_append_line`], for an optional `name=value` line.
proof fn lemma_append_opt_line(prefix: Seq<char>, name: Seq<char>, v: Option<Seq<char>>)
    requires
        free_of(name, '\n'),
        free_of(name, '='),
        v matches Some(t) ==> free_of(t, '\n') && free_of(t, '='),
    ensures
        forall|n: Seq<char>|
            #[trigger] last_named(split(prefix + opt_entry('\n', name, v), '\n'), n) == match v {
                Some(t) => if n == name {
                    Some(Some(t))
                } else {
                    last_named(split(prefix, '\n'), n)
                },
                None => last_named(split(prefix, '\n'), n),
            },
        forall|n: Seq<char>|
            #[trigger] last_line(split(prefix + opt_entry('\n', name, v), '\n'), n) == match v {
                Some(t) => if n == name {
                    Some(entry_str(name, t))
                } else {
                    last_line(split(prefix, '\n'), n)
                },
                None => last_line(split(prefix, '\n'), n),
            },
        split(prefix + opt_entry('\n', name, v), '\n')[0] == split(prefix, '\n')[0],
{
    crate::codec::lemma_split_len(prefix, '\n');
    match v {
        Some(t) => {
            lemma_entry(name, t);
            crate::entries::lemma_entry_free(name, t, '\n');
            assert(prefix + opt_entry('\n', name, v) =~= prefix + seq!['\n'] + entry_str(name, t));
            lemma_append_line(prefix, entry_str(name, t));
        },
        None => {
            assert(prefix + opt_entry('\n', name, v) =~= prefix);
        },
    }
}

proof fn lemma_list_text(v: Option<Vec<i8>>)
    ensures
        v matches Some(x) ==> free_of(ints_text(ints_of_i8(x@)), '\n') && free_of(
            ints_text(ints_of_i8(x@)),
            '=',
        ) && lenient_ints(split(ints_text(ints_of_i8(x@)), ','), -128, 127) == ints_of_i8(x@),
{
    if let Some(x) = v {
        let xs = ints_of_i8(x@);
        assert forall|i: int| 0 <= i < xs.len() implies -128 <= #[trigger] xs[i] <= 127 by {
            assert(xs[i] == x@[i] as int);
        }
        crate::lists::lemma_int_list_round_trip(xs, -128, 127);
        crate::lists::lemma_ints_text_free(xs, '\n');
        crate::lists::lemma_ints_text_free(xs, '=');
    }
}

proof fn lemma_text_shape(d: SpriteData)
    ensures
        d.text() == join8(fixed_lines(d)) + opt_entry('\n', "invisCont"@, opt_flag_str(d.invisCont))
            + opt_entry('\n', "spritesDrawnBehind"@, opt_list_str(list_view(d.spritesDrawnBehind)))
            + opt_entry('\n', "spritesAdditiveBlend"@, opt_list_str(list_view(d.spritesAdditiveBlend)))
            + opt_entry('\n', "ignoredCont"@, opt_list_str(list_view(d.ignoredCont))),
{
    assert(d.text() =~= join8(fixed_lines(d)) + opt_entry('\n', "invisCont"@, opt_flag_str(d.invisCont))
        + opt_entry('\n', "spritesDrawnBehind"@, opt_list_str(list_view(d.spritesDrawnBehind)))
        + opt_entry('\n', "spritesAdditiveBlend"@, opt_list_str(list_view(d.spritesAdditiveBlend)))
        + opt_entry('\n', "ignoredCont"@, opt_list_str(list_view(d.ignoredCont))));
}

/// Looking up each name among all lines of a sprite's text.
#[verifier::rlimit(100)]
proof fn lemma_sprite_lookup(d: SpriteData)
    requires
        d.wf(),
    ensures
        split(d.text(), '\n')[0] == fixed_lines(d)[0],
        last_named(split(d.text(), '\n'), "pos"@) == Some(Some(d.pos.text())),
        last_named(split(d.text(), '\n'), "rot"@) == Some(Some(fixed_str(d.rot.micros as int))),
        last_named(split(d.text(), '\n'), "hFlip"@) == Some(Some(flag_str(d.hFlip))),
        last_named(split(d.text(), '\n'), "ageRange"@) == Some(Some(d.ageRange.text())),
        last_named(split(d.text(), '\n'), "parent"@) == Some(Some(int_str(d.parent as int))),
        last_line(split(d.text(), '\n'), "color"@) == Some(d.color.text()),
        last_line(split(d.text(), '\n'), "invisHolding"@) == Some(d.invisHolding.text()),
        last_named(split(d.text(), '\n'), "invisCont"@) == match opt_flag_str(d.invisCont) {
            Some(t) => Some(Some(t)),
            None => None,
        },
        last_named(split(d.text(), '\n'), "spritesDrawnBehind"@) == match opt_list_str(list_view(d.spritesDrawnBehind)) {
            Some(t) => Some(Some(t)),
            None => None,
        },
        last_named(split(d.text(), '\n'), "spritesAdditiveBlend"@) == match opt_list_str(list_view(d.spritesAdditiveBlend)) {
            Some(t) => Some(Some(t)),
            None => None,
        },
        last_named(split(d.text(), '\n'), "ignoredCont"@) == match opt_list_str(list_view(d.ignoredCont)) {
            Some(t) => Some(Some(t)),
            None => None,
        },
{
    lemma_fixed_lines(d);
    lemma_fixed_lookup(d);
    lemma_sprite_names_differ();
    lemma_split_join8(fixed_lines(d));
    lemma_list_text(d.spritesDrawnBehind);
    lemma_list_text(d.spritesAdditiveBlend);
    lemma_list_text(d.ignoredCont);
    if let Some(b) = d.invisCont {
        crate::entries::lemma_flag_numeric(b);
        lemma_numeric_line(flag_str(b));
    }
    reveal_strlit("invisCont");
    reveal_strlit("spritesDrawnBehind");
    reveal_strlit("spritesAdditiveBlend");
    reveal_strlit("ignoredCont");
    assert(free_of("invisCont"@, '\n') && free_of("invisCont"@, '='));
    assert(free_of("spritesDrawnBehind"@, '\n') && free_of("spritesDrawnBehind"@, '='));
    assert(free_of("spritesAdditiveBlend"@, '\n') && free_of("spritesAdditiveBlend"@, '='));
    assert(free_of("ignoredCont"@, '\n') && free_of("ignoredCont"@, '='));
    let t7 = join8(fixed_lines(d));
    let o8 = opt_entry('\n', "invisCont"@, opt_flag_str(d.invisCont));
    let o9 = opt_entry('\n', "spritesDrawnBehind"@, opt_list_str(list_view(d.spritesDrawnBehind)));
    let o10 = opt_entry('\n', "spritesAdditiveBlend"@, opt_list_str(list_view(d.spritesAdditiveBlend)));
    let o11 = opt_entry('\n', "ignoredCont"@, opt_list_str(list_view(d.ignoredCont)));
    reveal_strlit("spriteID");
    reveal_strlit("pos");
    reveal_strlit("rot");
    reveal_strlit("hFlip");
    reveal_strlit("ageRange");
    reveal_strlit("parent");
    lemma_text_shape(d);
    lemma_append_opt_line(t7, "invisCont"@, opt_flag_str(d.invisCont));
    lemma_append_opt_line(t7 + o8, "spritesDrawnBehind"@, opt_list_str(list_view(d.spritesDrawnBehind)));
    lemma_append_opt_line(t7 + o8 + o9, "spritesAdditiveBlend"@, opt_list_str(list_view(d.spritesAdditiveBlend)));
    lemma_append_opt_line(t7 + o8 + o9 + o10, "ignoredCont"@, opt_list_str(list_view(d.ignoredCont)));
}

/// Reading back the lines of a sprite's text gives the sprite.
#[verifier::rlimit(100)]
pub proof fn lemma_sprite_round_trip(d: SpriteData)
    requires
        d.wf(),
    ensures
        SpriteData::parse(split(d.text(), '\n')) == Some(d.view()),
{
    lemma_fixed_lines(d);
    lemma_sprite_lookup(d);
    lemma_list_text(d.spritesDrawnBehind);
    lemma_list_text(d.spritesAdditiveBlend);
    lemma_list_text(d.ignoredCont);
    if let Some(b) = d.invisCont {
        crate::fields::lemma_flag_text(b);
    }
}

} // verus!
