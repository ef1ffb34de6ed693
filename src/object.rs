//! Object records of the line format: an `id=` line, a name line, then one
//! line per present field in a fixed order.
#![allow(non_snake_case)]
use vstd::prelude::*;

use crate::clothing::ClothingData;
use crate::codec::{Fixed, int_str, parse_fixed, parse_int_within, pieces, ranges_within, read_fixed, read_int, split, split_ranges};
use crate::entries::{FormatError, Part, head_value, entry_name, entry_str, entry_value, last_line, last_named, value_range};
use crate::fields::{
    BlocksWalkingData, ContainSizeData, NumSlotsData, NumUsesData, PermanentData, PersonData,
    SoundsData, opt_entry, opt_fixed_str, opt_fixed_wf, opt_flag_str, opt_int_str, push_entry_start,
    push_opt_fixed, push_opt_flag, push_opt_int,
};
use crate::lists::{
    DoublePair, I32Pair, MapChanceData, SlotPosData, ints_of_i32, ints_text, lenient_ints,
    push_int_list, read_i32_list, widen_i32s,
};
use crate::sprite::{SpriteData, SpriteView};
use crate::text::{chars_of, eq_word, push_range, push_str, string_of, trim, trim_range};

verus! {

/// One object definition.
#[derive(Clone, Debug, PartialEq)]
pub struct OneLifeDataObject {
    pub id: i32,
    pub name: String,
    pub containable: Option<bool>,
    pub containSize: Option<ContainSizeData>,
    pub permanent: Option<PermanentData>,
    pub noFlip: Option<bool>,
    pub sideAccess: Option<bool>,
    pub heldInHand: Option<i8>,
    pub ridingAnimationIndex: Option<i32>,
    pub blocksWalking: Option<BlocksWalkingData>,
    pub mapChance: Option<MapChanceData>,
    pub heatValue: Option<i32>,
    pub rValue: Option<Fixed>,
    pub person: Option<PersonData>,
    pub male: Option<bool>,
    pub deathMarker: Option<bool>,
    pub homeMarker: Option<bool>,
    pub floor: Option<bool>,
    pub partialFloor: Option<i8>,
    pub floorHugging: Option<bool>,
    pub wallLayer: Option<bool>,
    pub frontWall: Option<i32>,
    pub foodValue: Option<Vec<i32>>,
    pub speedMult: Option<Fixed>,
    pub containOffset: Option<I32Pair>,
    pub heldOffset: Option<DoublePair>,
    pub clothing: Option<ClothingData>,
    pub clothingOffset: Option<DoublePair>,
    pub deadlyDistance: Option<i32>,
    pub useDistance: Option<i32>,
    pub sounds: Option<SoundsData>,
    pub creationSoundInitialOnly: Option<bool>,
    pub creationSoundForce: Option<bool>,
    pub numSlots: Option<NumSlotsData>,
    pub slotSize: Option<Fixed>,
    pub slotStyle: Option<i32>,
    pub slotsLocked: Option<bool>,
    pub slotsNoSwap: Option<bool>,
    pub slotPosData: Option<Vec<SlotPosData>>,
    pub numSprites: Option<i32>,
    pub sprites: Option<Vec<SpriteData>>,
    pub headIndex: Option<Vec<i32>>,
    pub bodyIndex: Option<Vec<i32>>,
    pub backFootIndex: Option<Vec<i32>>,
    pub frontFootIndex: Option<Vec<i32>>,
    pub numUses: Option<NumUsesData>,
    pub useVanishIndex: Option<Vec<i32>>,
    pub useAppearIndex: Option<Vec<i32>>,
    pub pixHeight: Option<i32>,
}

/// A newline and the line, when present.
pub open spec fn line_of(l: Option<Seq<char>>) -> Seq<char> {
    match l {
        Some(t) => seq!['\n'] + t,
        None => Seq::empty(),
    }
}

pub open spec fn widen_i8(v: Option<i8>) -> Option<i32> {
    match v {
        Some(x) => Some(x as i32),
        None => None,
    }
}

fn widen8(v: Option<i8>) -> (r: Option<i32>)
    ensures
        r == widen_i8(v),
{
    match v {
        Some(x) => Some(x as i32),
        None => None,
    }
}

pub open spec fn opt_ints_str(v: Option<Vec<i32>>) -> Option<Seq<char>> {
    match v {
        Some(x) => Some(ints_text(ints_of_i32(x@))),
        None => None,
    }
}

pub open spec fn opt_ipair_str(v: Option<I32Pair>) -> Option<Seq<char>> {
    match v {
        Some(p) => Some(p.text()),
        None => None,
    }
}

pub open spec fn opt_dpair_str(v: Option<DoublePair>) -> Option<Seq<char>> {
    match v {
        Some(p) => Some(p.text()),
        None => None,
    }
}

/// Each slot position on a line of its own.
pub open spec fn slot_seq_text(v: Seq<SlotPosData>) -> Seq<char>
    decreases v.len(),
{
    if v.len() == 0 {
        Seq::empty()
    } else {
        slot_seq_text(v.drop_last()) + seq!['\n'] + v.last().text()
    }
}

pub open spec fn slots_text(v: Option<Vec<SlotPosData>>) -> Seq<char> {
    match v {
        Some(x) => slot_seq_text(x@),
        None => Seq::empty(),
    }
}

pub open spec fn slots_wf(v: Option<Vec<SlotPosData>>) -> bool {
    v matches Some(x) ==> forall|i: int| 0 <= i < x@.len() ==> (#[trigger] x@[i]).wf()
}

/// Each sprite block after a newline.
pub open spec fn sprite_seq_text(v: Seq<SpriteData>) -> Seq<char>
    decreases v.len(),
{
    if v.len() == 0 {
        Seq::empty()
    } else {
        sprite_seq_text(v.drop_last()) + seq!['\n'] + v.last().text()
    }
}

pub open spec fn sprites_text(v: Option<Vec<SpriteData>>) -> Seq<char> {
    match v {
        Some(x) => sprite_seq_text(x@),
        None => Seq::empty(),
    }
}

pub open spec fn sprites_wf(v: Option<Vec<SpriteData>>) -> bool {
    v matches Some(x) ==> forall|i: int| 0 <= i < x@.len() ==> (#[trigger] x@[i]).wf()
}

fn push_opt_ints(out: &mut Vec<char>, w: &str, v: &Option<Vec<i32>>)
    ensures
        final(out)@ == old(out)@ + opt_entry('\n', w@, opt_ints_str(*v)),
{
    match v {
        Some(x) => {
            push_entry_start(out, '\n', w);
            let wide = widen_i32s(x);
            push_int_list(out, &wide);
            assert(final(out)@ =~= old(out)@ + opt_entry('\n', w@, opt_ints_str(*v)));
        },
        None => {
            assert(final(out)@ =~= old(out)@ + opt_entry('\n', w@, opt_ints_str(*v)));
        },
    }
}

fn push_slots(out: &mut Vec<char>, v: &Option<Vec<SlotPosData>>)
    requires
        slots_wf(*v),
    ensures
        final(out)@ == old(out)@ + slots_text(*v),
{
    match v {
        Some(x) => {
            let mut k: usize = 0;
            while k < x.len()
                invariant
                    0 <= k <= x@.len(),
                    forall|i: int| 0 <= i < x@.len() ==> (#[trigger] x@[i]).wf(),
                    out@ == old(out)@ + slot_seq_text(x@.take(k as int)),
                decreases x@.len() - k,
            {
                out.push('\n');
                x[k].push_text(out);
                assert(x@.take(k + 1).drop_last() =~= x@.take(k as int));
                assert(out@ =~= old(out)@ + slot_seq_text(x@.take(k + 1)));
                k = k + 1;
            }
            assert(x@.take(x@.len() as int) =~= x@);
        },
        None => {
            assert(final(out)@ =~= old(out)@);
        },
    }
}

fn push_sprites(out: &mut Vec<char>, v: &Option<Vec<SpriteData>>)
    requires
        sprites_wf(*v),
    ensures
        final(out)@ == old(out)@ + sprites_text(*v),
{
    match v {
        Some(x) => {
            let mut k: usize = 0;
            while k < x.len()
                invariant
                    0 <= k <= x@.len(),
                    forall|i: int| 0 <= i < x@.len() ==> (#[trigger] x@[i]).wf(),
                    out@ == old(out)@ + sprite_seq_text(x@.take(k as int)),
                decreases x@.len() - k,
            {
                out.push('\n');
                x[k].push_text(out);
                assert(x@.take(k + 1).drop_last() =~= x@.take(k as int));
                assert(out@ =~= old(out)@ + sprite_seq_text(x@.take(k + 1)));
                k = k + 1;
            }
            assert(x@.take(x@.len() as int) =~= x@);
        },
        None => {
            assert(final(out)@ =~= old(out)@);
        },
    }
}

fn push_ipair(out: &mut Vec<char>, w: &str, v: Option<I32Pair>)
    ensures
        final(out)@ == old(out)@ + opt_entry('\n', w@, opt_ipair_str(v)),
{
    if let Some(p) = v {
        push_entry_start(out, '\n', w);
        p.push_text(out);
    }
    assert(final(out)@ =~= old(out)@ + opt_entry('\n', w@, opt_ipair_str(v)));
}

pub open spec fn dpair_wf(v: Option<DoublePair>) -> bool {
    match v {
        Some(p) => p.wf(),
        None => true,
    }
}

fn push_dpair(out: &mut Vec<char>, w: &str, v: Option<DoublePair>)
    requires
        dpair_wf(v),
    ensures
        final(out)@ == old(out)@ + opt_entry('\n', w@, opt_dpair_str(v)),
{
    if let Some(p) = v {
        push_entry_start(out, '\n', w);
        p.push_text(out);
    }
    assert(final(out)@ =~= old(out)@ + opt_entry('\n', w@, opt_dpair_str(v)));
}

pub open spec fn wf_containSize(v: Option<ContainSizeData>) -> bool {
    match v {
        Some(d) => d.wf(),
        None => true,
    }
}

fn push_containSize_line(out: &mut Vec<char>, v: &Option<ContainSizeData>)
        requires
            wf_containSize(*v),
    ensures
        final(out)@ == old(out)@ + line_of(
            match *v {
                Some(d) => Some(d.text()),
                None => None,
            },
        ),
{
    if let Some(d) = v {
        out.push('\n');
        d.push_text(out);
    }
    assert(final(out)@ =~= old(out)@ + line_of(
        match *v {
            Some(d) => Some(d.text()),
            None => None,
        },
    ));
}

fn push_permanent_line(out: &mut Vec<char>, v: &Option<PermanentData>)
    ensures
        final(out)@ == old(out)@ + line_of(
            match *v {
                Some(d) => Some(d.text()),
                None => None,
            },
        ),
{
    if let Some(d) = v {
        out.push('\n');
        d.push_text(out);
    }
    assert(final(out)@ =~= old(out)@ + line_of(
        match *v {
            Some(d) => Some(d.text()),
            None => None,
        },
    ));
}

fn push_blocksWalking_line(out: &mut Vec<char>, v: &Option<BlocksWalkingData>)
    ensures
        final(out)@ == old(out)@ + line_of(
            match *v {
                Some(d) => Some(d.text()),
                None => None,
            },
        ),
{
    if let Some(d) = v {
        out.push('\n');
        d.push_text(out);
    }
    assert(final(out)@ =~= old(out)@ + line_of(
        match *v {
            Some(d) => Some(d.text()),
            None => None,
        },
    ));
}

pub open spec fn wf_mapChance(v: Option<MapChanceData>) -> bool {
    match v {
        Some(d) => d.wf(),
        None => true,
    }
}

fn push_mapChance_line(out: &mut Vec<char>, v: &Option<MapChanceData>)
        requires
            wf_mapChance(*v),
    ensures
        final(out)@ == old(out)@ + line_of(
            match *v {
                Some(d) => Some(d.text()),
                None => None,
            },
        ),
{
    if let Some(d) = v {
        out.push('\n');
        d.push_text(out);
    }
    assert(final(out)@ =~= old(out)@ + line_of(
        match *v {
            Some(d) => Some(d.text()),
            None => None,
        },
    ));
}

fn push_person_line(out: &mut Vec<char>, v: &Option<PersonData>)
    ensures
        final(out)@ == old(out)@ + line_of(
            match *v {
                Some(d) => Some(d.text()),
                None => None,
            },
        ),
{
    if let Some(d) = v {
        out.push('\n');
        d.push_text(out);
    }
    assert(final(out)@ =~= old(out)@ + line_of(
        match *v {
            Some(d) => Some(d.text()),
            None => None,
        },
    ));
}

fn push_clothing_line(out: &mut Vec<char>, v: &Option<ClothingData>)
    ensures
        final(out)@ == old(out)@ + line_of(
            match *v {
                Some(d) => Some(d.text()),
                None => None,
            },
        ),
{
    if let Some(d) = v {
        out.push('\n');
        d.push_text(out);
    }
    assert(final(out)@ =~= old(out)@ + line_of(
        match *v {
            Some(d) => Some(d.text()),
            None => None,
        },
    ));
}

fn push_sounds_line(out: &mut Vec<char>, v: &Option<SoundsData>)
    ensures
        final(out)@ == old(out)@ + line_of(
            match *v {
                Some(d) => Some(d.text()),
                None => None,
            },
        ),
{
    if let Some(d) = v {
        out.push('\n');
        d.push_text(out);
    }
    assert(final(out)@ =~= old(out)@ + line_of(
        match *v {
            Some(d) => Some(d.text()),
            None => None,
        },
    ));
}

pub open spec fn wf_numSlots(v: Option<NumSlotsData>) -> bool {
    match v {
        Some(d) => d.wf(),
        None => true,
    }
}

fn push_numSlots_line(out: &mut Vec<char>, v: &Option<NumSlotsData>)
        requires
            wf_numSlots(*v),
    ensures
        final(out)@ == old(out)@ + line_of(
            match *v {
                Some(d) => Some(d.text()),
                None => None,
            },
        ),
{
    if let Some(d) = v {
        out.push('\n');
        d.push_text(out);
    }
    assert(final(out)@ =~= old(out)@ + line_of(
        match *v {
            Some(d) => Some(d.text()),
            None => None,
        },
    ));
}

pub open spec fn wf_numUses(v: Option<NumUsesData>) -> bool {
    match v {
        Some(d) => d.wf(),
        None => true,
    }
}

fn push_numUses_line(out: &mut Vec<char>, v: &Option<NumUsesData>)
        requires
            wf_numUses(*v),
    ensures
        final(out)@ == old(out)@ + line_of(
            match *v {
                Some(d) => Some(d.text()),
                None => None,
            },
        ),
{
    if let Some(d) = v {
        out.push('\n');
        d.push_text(out);
    }
    assert(final(out)@ =~= old(out)@ + line_of(
        match *v {
            Some(d) => Some(d.text()),
            None => None,
        },
    ));
}

impl OneLifeDataObject {
    /// Every value the record holds can be written.
    pub open spec fn wf(self) -> bool {
        wf_containSize(self.containSize)
            && wf_mapChance(self.mapChance)
            && opt_fixed_wf(self.rValue)
            && opt_fixed_wf(self.speedMult)
            && dpair_wf(self.heldOffset)
            && dpair_wf(self.clothingOffset)
            && wf_numSlots(self.numSlots)
            && opt_fixed_wf(self.slotSize)
            && slots_wf(self.slotPosData)
            && sprites_wf(self.sprites)
            && wf_numUses(self.numUses)
    }

    /// The record's text: the `id=` line, the name, then each present field
    /// on lines of its own, in the fixed order.
    pub open spec fn text(self) -> Seq<char> {
        self.after6(
            self.after5(
                self.after4(
                    self.after3(
                        self.after2(
                            self.after1(
                                entry_str("id"@, int_str(self.id as int)) + seq!['\n'] + self.name@,
                            ),
                        ),
                    ),
                ),
            ),
        )
    }

    pub open spec fn after1(self, prefix: Seq<char>) -> Seq<char> {
        prefix + opt_entry('\n', "containable"@, opt_flag_str(self.containable))
            + line_of(match self.containSize { Some(d) => Some(d.text()), None => None })
            + line_of(match self.permanent { Some(d) => Some(d.text()), None => None })
            + opt_entry('\n', "noFlip"@, opt_flag_str(self.noFlip))
            + opt_entry('\n', "sideAccess"@, opt_flag_str(self.sideAccess))
            + opt_entry('\n', "heldInHand"@, opt_int_str(widen_i8(self.heldInHand)))
            + opt_entry('\n', "ridingAnimationIndex"@, opt_int_str(self.ridingAnimationIndex))
            + line_of(match self.blocksWalking { Some(d) => Some(d.text()), None => None })
    }

    pub open spec fn after2(self, prefix: Seq<char>) -> Seq<char> {
        prefix + line_of(match self.mapChance { Some(d) => Some(d.text()), None => None })
            + opt_entry('\n', "heatValue"@, opt_int_str(self.heatValue))
            + opt_entry('\n', "rValue"@, opt_fixed_str(self.rValue))
            + line_of(match self.person { Some(d) => Some(d.text()), None => None })
            + opt_entry('\n', "male"@, opt_flag_str(self.male))
            + opt_entry('\n', "deathMarker"@, opt_flag_str(self.deathMarker))
            + opt_entry('\n', "homeMarker"@, opt_flag_str(self.homeMarker))
            + opt_entry('\n', "floor"@, opt_flag_str(self.floor))
    }

    pub open spec fn after3(self, prefix: Seq<char>) -> Seq<char> {
        prefix + opt_entry('\n', "partialFloor"@, opt_int_str(widen_i8(self.partialFloor)))
            + opt_entry('\n', "floorHugging"@, opt_flag_str(self.floorHugging))
            + opt_entry('\n', "wallLayer"@, opt_flag_str(self.wallLayer))
            + opt_entry('\n', "frontWall"@, opt_int_str(self.frontWall))
            + opt_entry('\n', "foodValue"@, opt_ints_str(self.foodValue))
            + opt_entry('\n', "speedMult"@, opt_fixed_str(self.speedMult))
            + opt_entry('\n', "containOffset"@, opt_ipair_str(self.containOffset))
            + opt_entry('\n', "heldOffset"@, opt_dpair_str(self.heldOffset))
    }

    pub open spec fn after4(self, prefix: Seq<char>) -> Seq<char> {
        prefix + line_of(match self.clothing { Some(d) => Some(d.text()), None => None })
            + opt_entry('\n', "clothingOffset"@, opt_dpair_str(self.clothingOffset))
            + opt_entry('\n', "deadlyDistance"@, opt_int_str(self.deadlyDistance))
            + opt_entry('\n', "useDistance"@, opt_int_str(self.useDistance))
            + line_of(match self.sounds { Some(d) => Some(d.text()), None => None })
            + opt_entry('\n', "creationSoundInitialOnly"@, opt_flag_str(self.creationSoundInitialOnly))
            + opt_entry('\n', "creationSoundForce"@, opt_flag_str(self.creationSoundForce))
            + line_of(match self.numSlots { Some(d) => Some(d.text()), None => None })
    }

    pub open spec fn after5(self, prefix: Seq<char>) -> Seq<char> {
        prefix + opt_entry('\n', "slotSize"@, opt_fixed_str(self.slotSize))
            + opt_entry('\n', "slotStyle"@, opt_int_str(self.slotStyle))
            + opt_entry('\n', "slotsLocked"@, opt_flag_str(self.slotsLocked))
            + opt_entry('\n', "slotsNoSwap"@, opt_flag_str(self.slotsNoSwap))
            + slots_text(self.slotPosData)
            + opt_entry('\n', "numSprites"@, opt_int_str(self.numSprites))
            + sprites_text(self.sprites)
    }

    pub open spec fn after6(self, prefix: Seq<char>) -> Seq<char> {
        prefix + opt_entry('\n', "headIndex"@, opt_ints_str(self.headIndex))
            + opt_entry('\n', "bodyIndex"@, opt_ints_str(self.bodyIndex))
            + opt_entry('\n', "backFootIndex"@, opt_ints_str(self.backFootIndex))
            + opt_entry('\n', "frontFootIndex"@, opt_ints_str(self.frontFootIndex))
            + line_of(match self.numUses { Some(d) => Some(d.text()), None => None })
            + opt_entry('\n', "useVanishIndex"@, opt_ints_str(self.useVanishIndex))
            + opt_entry('\n', "useAppearIndex"@, opt_ints_str(self.useAppearIndex))
            + opt_entry('\n', "pixHeight"@, opt_int_str(self.pixHeight))
    }

    fn push1(&self, out: &mut Vec<char>)
        requires
            self.wf(),
        ensures
            final(out)@ == self.after1(old(out)@),
    {
        push_opt_flag(out, '\n', "containable", self.containable);
        push_containSize_line(out, &self.containSize);
        push_permanent_line(out, &self.permanent);
        push_opt_flag(out, '\n', "noFlip", self.noFlip);
        push_opt_flag(out, '\n', "sideAccess", self.sideAccess);
        push_opt_int(out, '\n', "heldInHand", widen8(self.heldInHand));
        push_opt_int(out, '\n', "ridingAnimationIndex", self.ridingAnimationIndex);
        push_blocksWalking_line(out, &self.blocksWalking);
    }

    fn push2(&self, out: &mut Vec<char>)
        requires
            self.wf(),
        ensures
            final(out)@ == self.after2(old(out)@),
    {
        push_mapChance_line(out, &self.mapChance);
        push_opt_int(out, '\n', "heatValue", self.heatValue);
        push_opt_fixed(out, '\n', "rValue", self.rValue);
        push_person_line(out, &self.person);
        push_opt_flag(out, '\n', "male", self.male);
        push_opt_flag(out, '\n', "deathMarker", self.deathMarker);
        push_opt_flag(out, '\n', "homeMarker", self.homeMarker);
        push_opt_flag(out, '\n', "floor", self.floor);
    }

    fn push3(&self, out: &mut Vec<char>)
        requires
            self.wf(),
        ensures
            final(out)@ == self.after3(old(out)@),
    {
        push_opt_int(out, '\n', "partialFloor", widen8(self.partialFloor));
        push_opt_flag(out, '\n', "floorHugging", self.floorHugging);
        push_opt_flag(out, '\n', "wallLayer", self.wallLayer);
        push_opt_int(out, '\n', "frontWall", self.frontWall);
        push_opt_ints(out, "foodValue", &self.foodValue);
        push_opt_fixed(out, '\n', "speedMult", self.speedMult);
        push_ipair(out, "containOffset", self.containOffset);
        push_dpair(out, "heldOffset", self.heldOffset);
    }

    fn push4(&self, out: &mut Vec<char>)
        requires
            self.wf(),
        ensures
            final(out)@ == self.after4(old(out)@),
    {
        push_clothing_line(out, &self.clothing);
        push_dpair(out, "clothingOffset", self.clothingOffset);
        push_opt_int(out, '\n', "deadlyDistance", self.deadlyDistance);
        push_opt_int(out, '\n', "useDistance", self.useDistance);
        push_sounds_line(out, &self.sounds);
        push_opt_flag(out, '\n', "creationSoundInitialOnly", self.creationSoundInitialOnly);
        push_opt_flag(out, '\n', "creationSoundForce", self.creationSoundForce);
        push_numSlots_line(out, &self.numSlots);
    }

    fn push5(&self, out: &mut Vec<char>)
        requires
            self.wf(),
        ensures
            final(out)@ == self.after5(old(out)@),
    {
        push_opt_fixed(out, '\n', "slotSize", self.slotSize);
        push_opt_int(out, '\n', "slotStyle", self.slotStyle);
        push_opt_flag(out, '\n', "slotsLocked", self.slotsLocked);
        push_opt_flag(out, '\n', "slotsNoSwap", self.slotsNoSwap);
        push_slots(out, &self.slotPosData);
        push_opt_int(out, '\n', "numSprites", self.numSprites);
        push_sprites(out, &self.sprites);
    }

    fn push6(&self, out: &mut Vec<char>)
        requires
            self.wf(),
        ensures
            final(out)@ == self.after6(old(out)@),
    {
        push_opt_ints(out, "headIndex", &self.headIndex);
        push_opt_ints(out, "bodyIndex", &self.bodyIndex);
        push_opt_ints(out, "backFootIndex", &self.backFootIndex);
        push_opt_ints(out, "frontFootIndex", &self.frontFootIndex);
        push_numUses_line(out, &self.numUses);
        push_opt_ints(out, "useVanishIndex", &self.useVanishIndex);
        push_opt_ints(out, "useAppearIndex", &self.useAppearIndex);
        push_opt_int(out, '\n', "pixHeight", self.pixHeight);
    }

    fn push_text(&self, out: &mut Vec<char>)
        requires
            self.wf(),
            old(out)@.len() == 0,
        ensures
            final(out)@ == self.text(),
    {
        push_str(out, "id=");
        push_int_line(out, self.id);
        out.push('\n');
        push_str(out, self.name.as_str());
        proof {
            reveal_strlit("id=");
            reveal_strlit("id");
        }
        assert(out@ =~= entry_str("id"@, int_str(self.id as int)) + seq!['\n'] + self.name@);
        self.push1(out);
        self.push2(out);
        self.push3(out);
        self.push4(out);
        self.push5(out);
        self.push6(out);
    }

    /// The record's text (see [`OneLifeDataObject::text`]).
    pub fn to_string(&self) -> (r: String)
        requires
            self.wf(),
        ensures
            r@ == self.text(),
    {
        let mut out: Vec<char> = Vec::new();
        self.push_text(&mut out);
        string_of(&out)
    }
}

fn push_int_line(out: &mut Vec<char>, x: i32)
    ensures
        final(out)@ == old(out)@ + int_str(x as int),
{
    crate::codec::push_int(out, x as i64);
}


/// The lines of a record's text: the text without surrounding whitespace,
/// split at newlines.
pub open spec fn record_lines(src: Seq<char>) -> Seq<Seq<char>> {
    split(trim(src), '\n')
}

/// The identifier on the first line of a record's text.
pub open spec fn record_id(src: Seq<char>) -> Option<int> {
    let ls = record_lines(src);
    if ls.len() >= 2 {
        match entry_value(ls[0]) {
            Some(v) => parse_int_within(trim(v), i32::MIN as int, i32::MAX as int),
            None => None,
        }
    } else {
        None
    }
}

pub open spec fn widen32(v: Option<i32>) -> Option<int> {
    match v {
        Some(x) => Some(x as int),
        None => None,
    }
}

pub open spec fn int_of_i8(v: Option<i8>) -> Option<int> {
    match v {
        Some(x) => Some(x as int),
        None => None,
    }
}

pub open spec fn fixed_of(v: Seq<char>) -> Option<Fixed> {
    match parse_fixed(v) {
        Some(m) => Some(Fixed { micros: m as i64 }),
        None => None,
    }
}

pub open spec fn ints_view(v: Option<Vec<i32>>) -> Option<Seq<int>> {
    match v {
        Some(x) => Some(ints_of_i32(x@)),
        None => None,
    }
}

pub open spec fn map_view(v: Option<MapChanceData>) -> Option<(Fixed, Option<Seq<int>>)> {
    match v {
        Some(m) => Some(m.view()),
        None => None,
    }
}

pub open spec fn sounds_view(v: Option<SoundsData>) -> Option<Seq<char>> {
    match v {
        Some(d) => Some(d.text()),
        None => None,
    }
}

/// The lines of a record after its name, without surrounding whitespace,
/// behind a placeholder that stands for the lines before them.
pub open spec fn record_body(src: Seq<char>) -> Seq<Seq<char>> {
    let ls = record_lines(src);
    Seq::new(
        (ls.len() - 1) as nat,
        |k: int|
            if k == 0 {
                Seq::empty()
            } else {
                trim(ls[k + 1])
            },
    )
}

/// The index after the sprite block whose continuation lines start at `k`:
/// the first line from `k` on that is not named as a sprite value, or that
/// opens another sprite.
pub open spec fn block_end(b: Seq<Seq<char>>, k: int) -> int
    decreases b.len() - k,
{
    if k < 0 || k >= b.len() || entry_name(b[k]) == "spriteID"@ || !crate::sprite::is_sprite_field(
        entry_name(b[k]),
    ) {
        k
    } else {
        block_end(b, k + 1)
    }
}

/// Whether a positive `numSprites` came among the lines before `k`.
pub open spec fn counted(b: Seq<Seq<char>>, k: int) -> bool {
    match last_named(b.take(k), "numSprites"@) {
        Some(Some(v)) => match parse_int_within(v, i32::MIN as int, i32::MAX as int) {
            Some(n) => n > 0,
            None => false,
        },
        _ => false,
    }
}

/// The lines of the sprite block that opens at line `k`: the first piece of
/// that line, then its continuation lines.
pub open spec fn block_lines(b: Seq<Seq<char>>, k: int) -> Seq<Seq<char>> {
    seq![split(b[k], ',')[0]] + b.subrange(k + 1, block_end(b, k + 1))
}

/// Reading the lines of a record from line `k` on: the sprites kept and the
/// slot positions, in order; or, when a line does not read, `Err` naming the
/// part that a sprite block lacks (`None` for any other failure).
pub open spec fn scan(b: Seq<Seq<char>>, k: int) -> Result<(Seq<SpriteView>, Seq<SlotPosData>), Option<Part>>
    decreases b.len() - k,
{
    if k < 1 || k >= b.len() {
        Ok((Seq::empty(), Seq::empty()))
    } else {
        let t = b[k];
        if t.len() == 0 {
            scan(b, k + 1)
        } else if entry_value(t) is None {
            Err(None)
        } else if entry_name(t) == "spriteID"@ {
            let j = block_end(b, k + 1);
            let block = block_lines(b, k);
            if j <= k || j > b.len() {
                Err(None)
            } else {
                match SpriteData::parse(block) {
                    None => Err(
                        if head_value(block) is Some {
                            SpriteData::first_absent(block)
                        } else {
                            None
                        },
                    ),
                    Some(v) => match scan(b, j) {
                        Err(e) => Err(e),
                        Ok((sp, sl)) => Ok(
                            (
                                if counted(b, k) {
                                    seq![v] + sp
                                } else {
                                    sp
                                },
                                sl,
                            ),
                        ),
                    },
                }
            }
        } else if entry_name(t) == "slotPos"@ {
            match SlotPosData::parse(t) {
                None => Err(None),
                Some(p) => match scan(b, k + 1) {
                    Err(e) => Err(e),
                    Ok((sp, sl)) => Ok((sp, seq![p] + sl)),
                },
            }
        } else if line_fails(entry_name(t), entry_value(t)->0, t) {
            Err(None)
        } else {
            scan(b, k + 1)
        }
    }
}

/// `r` with `sp` and `sl` in front of what it holds.
pub open spec fn after_prefix(
    sp: Seq<SpriteView>,
    sl: Seq<SlotPosData>,
    r: Result<(Seq<SpriteView>, Seq<SlotPosData>), Option<Part>>,
) -> Result<(Seq<SpriteView>, Seq<SlotPosData>), Option<Part>> {
    match r {
        Ok((a, c)) => Ok((sp + a, sl + c)),
        Err(e) => Err(e),
    }
}

pub open spec fn views(v: Seq<SpriteData>) -> Seq<SpriteView> {
    v.map_values(|x: SpriteData| x.view())
}

/// What a block field holds: absent when empty.
pub open spec fn sprites_of(v: Option<Vec<SpriteData>>) -> Seq<SpriteView> {
    match v {
        Some(x) => views(x@),
        None => Seq::empty(),
    }
}

pub open spec fn slots_of(v: Option<Vec<SlotPosData>>) -> Seq<SlotPosData> {
    match v {
        Some(x) => x@,
        None => Seq::empty(),
    }
}

/// The part that a sprite block lacks, when that is why a record's lines do
/// not read.
pub open spec fn missing_part(src: Seq<char>) -> Option<Part> {
    match scan(record_body(src), 1) {
        Err(Some(p)) => Some(p),
        _ => None,
    }
}

/// Whether the record's text reads: its identifier line reads and so does
/// every later line.
pub open spec fn record_reads(src: Seq<char>) -> bool {
    record_id(src) is Some && scan(record_body(src), 1) is Ok
}

/// Whether a line name is that of a single-line field of the record.
pub open spec fn field_name(n: Seq<char>) -> bool {
    n == "containable"@
        || n == "containSize"@
        || n == "permanent"@
        || n == "noFlip"@
        || n == "sideAccess"@
        || n == "heldInHand"@
        || n == "ridingAnimationIndex"@
        || n == "blocksWalking"@
        || n == "mapChance"@
        || n == "heatValue"@
        || n == "rValue"@
        || n == "person"@
        || n == "male"@
        || n == "deathMarker"@
        || n == "homeMarker"@
        || n == "floor"@
        || n == "partialFloor"@
        || n == "floorHugging"@
        || n == "wallLayer"@
        || n == "frontWall"@
        || n == "foodValue"@
        || n == "speedMult"@
        || n == "containOffset"@
        || n == "heldOffset"@
        || n == "clothing"@
        || n == "clothingOffset"@
        || n == "deadlyDistance"@
        || n == "useDistance"@
        || n == "sounds"@
        || n == "creationSoundInitialOnly"@
        || n == "creationSoundForce"@
        || n == "numSlots"@
        || n == "slotSize"@
        || n == "slotStyle"@
        || n == "slotsLocked"@
        || n == "slotsNoSwap"@
        || n == "numSprites"@
        || n == "headIndex"@
        || n == "bodyIndex"@
        || n == "backFootIndex"@
        || n == "frontFootIndex"@
        || n == "numUses"@
        || n == "useVanishIndex"@
        || n == "useAppearIndex"@
        || n == "pixHeight"@
}

/// Each field of this group holds what the last line bearing its name
/// gives, or nothing when no line bears it.
pub open spec fn read_flag_fields(o: OneLifeDataObject, b: Seq<Seq<char>>) -> bool {
    &&& o.containable == (match last_named(b, "containable"@) { Some(Some(v)) => Some(v != "0"@), _ => None })
    &&& o.noFlip == (match last_named(b, "noFlip"@) { Some(Some(v)) => Some(v != "0"@), _ => None })
    &&& o.sideAccess == (match last_named(b, "sideAccess"@) { Some(Some(v)) => Some(v != "0"@), _ => None })
    &&& o.male == (match last_named(b, "male"@) { Some(Some(v)) => Some(v != "0"@), _ => None })
    &&& o.deathMarker == (match last_named(b, "deathMarker"@) { Some(Some(v)) => Some(v != "0"@), _ => None })
    &&& o.homeMarker == (match last_named(b, "homeMarker"@) { Some(Some(v)) => Some(v != "0"@), _ => None })
    &&& o.floor == (match last_named(b, "floor"@) { Some(Some(v)) => Some(v != "0"@), _ => None })
    &&& o.floorHugging == (match last_named(b, "floorHugging"@) { Some(Some(v)) => Some(v != "0"@), _ => None })
    &&& o.wallLayer == (match last_named(b, "wallLayer"@) { Some(Some(v)) => Some(v != "0"@), _ => None })
    &&& o.creationSoundInitialOnly == (match last_named(b, "creationSoundInitialOnly"@) { Some(Some(v)) => Some(v != "0"@), _ => None })
    &&& o.creationSoundForce == (match last_named(b, "creationSoundForce"@) { Some(Some(v)) => Some(v != "0"@), _ => None })
    &&& o.slotsLocked == (match last_named(b, "slotsLocked"@) { Some(Some(v)) => Some(v != "0"@), _ => None })
    &&& o.slotsNoSwap == (match last_named(b, "slotsNoSwap"@) { Some(Some(v)) => Some(v != "0"@), _ => None })
}

/// Each field of this group holds what the last line bearing its name
/// gives, or nothing when no line bears it.
pub open spec fn read_int_fields(o: OneLifeDataObject, b: Seq<Seq<char>>) -> bool {
    &&& int_of_i8(o.heldInHand) == (match last_named(b, "heldInHand"@) { Some(Some(v)) => parse_int_within(v, -128, 127), _ => None })
    &&& widen32(o.ridingAnimationIndex) == (match last_named(b, "ridingAnimationIndex"@) { Some(Some(v)) => parse_int_within(v, i32::MIN as int, i32::MAX as int), _ => None })
    &&& widen32(o.heatValue) == (match last_named(b, "heatValue"@) { Some(Some(v)) => parse_int_within(v, i32::MIN as int, i32::MAX as int), _ => None })
    &&& int_of_i8(o.partialFloor) == (match last_named(b, "partialFloor"@) { Some(Some(v)) => parse_int_within(v, -128, 127), _ => None })
    &&& widen32(o.frontWall) == (match last_named(b, "frontWall"@) { Some(Some(v)) => parse_int_within(v, i32::MIN as int, i32::MAX as int), _ => None })
    &&& widen32(o.deadlyDistance) == (match last_named(b, "deadlyDistance"@) { Some(Some(v)) => parse_int_within(v, i32::MIN as int, i32::MAX as int), _ => None })
    &&& widen32(o.useDistance) == (match last_named(b, "useDistance"@) { Some(Some(v)) => parse_int_within(v, i32::MIN as int, i32::MAX as int), _ => None })
    &&& widen32(o.slotStyle) == (match last_named(b, "slotStyle"@) { Some(Some(v)) => parse_int_within(v, i32::MIN as int, i32::MAX as int), _ => None })
    &&& widen32(o.numSprites) == (match last_named(b, "numSprites"@) { Some(Some(v)) => parse_int_within(v, i32::MIN as int, i32::MAX as int), _ => None })
    &&& widen32(o.pixHeight) == (match last_named(b, "pixHeight"@) { Some(Some(v)) => parse_int_within(v, i32::MIN as int, i32::MAX as int), _ => None })
}

/// Each field of this group holds what the last line bearing its name
/// gives, or nothing when no line bears it.
pub open spec fn read_misc_fields(o: OneLifeDataObject, b: Seq<Seq<char>>) -> bool {
    &&& o.rValue == (match last_named(b, "rValue"@) { Some(Some(v)) => fixed_of(v), _ => None })
    &&& ints_view(o.foodValue) == (match last_named(b, "foodValue"@) { Some(Some(v)) => Some(lenient_ints(split(v, ','), i32::MIN as int, i32::MAX as int)), _ => None })
    &&& o.speedMult == (match last_named(b, "speedMult"@) { Some(Some(v)) => fixed_of(v), _ => None })
    &&& o.containOffset == (match last_named(b, "containOffset"@) { Some(Some(v)) => I32Pair::parse(v), _ => None })
    &&& o.heldOffset == (match last_named(b, "heldOffset"@) { Some(Some(v)) => DoublePair::parse(v), _ => None })
    &&& o.clothingOffset == (match last_named(b, "clothingOffset"@) { Some(Some(v)) => DoublePair::parse(v), _ => None })
    &&& o.slotSize == (match last_named(b, "slotSize"@) { Some(Some(v)) => fixed_of(v), _ => None })
    &&& ints_view(o.headIndex) == (match last_named(b, "headIndex"@) { Some(Some(v)) => Some(lenient_ints(split(v, ','), i32::MIN as int, i32::MAX as int)), _ => None })
    &&& ints_view(o.bodyIndex) == (match last_named(b, "bodyIndex"@) { Some(Some(v)) => Some(lenient_ints(split(v, ','), i32::MIN as int, i32::MAX as int)), _ => None })
    &&& ints_view(o.backFootIndex) == (match last_named(b, "backFootIndex"@) { Some(Some(v)) => Some(lenient_ints(split(v, ','), i32::MIN as int, i32::MAX as int)), _ => None })
    &&& ints_view(o.frontFootIndex) == (match last_named(b, "frontFootIndex"@) { Some(Some(v)) => Some(lenient_ints(split(v, ','), i32::MIN as int, i32::MAX as int)), _ => None })
    &&& ints_view(o.useVanishIndex) == (match last_named(b, "useVanishIndex"@) { Some(Some(v)) => Some(lenient_ints(split(v, ','), i32::MIN as int, i32::MAX as int)), _ => None })
    &&& ints_view(o.useAppearIndex) == (match last_named(b, "useAppearIndex"@) { Some(Some(v)) => Some(lenient_ints(split(v, ','), i32::MIN as int, i32::MAX as int)), _ => None })
}

/// Each field of this group holds what the last line bearing its name
/// gives, or nothing when no line bears it.
pub open spec fn read_comp_fields(o: OneLifeDataObject, b: Seq<Seq<char>>) -> bool {
    &&& o.containSize == (match last_line(b, "containSize"@) { Some(l) => ContainSizeData::parse(l), None => None })
    &&& o.permanent == (match last_line(b, "permanent"@) { Some(l) => PermanentData::parse(l), None => None })
    &&& o.blocksWalking == (match last_line(b, "blocksWalking"@) { Some(l) => BlocksWalkingData::parse(l), None => None })
    &&& map_view(o.mapChance) == (match last_line(b, "mapChance"@) { Some(l) => MapChanceData::parse(l), None => None })
    &&& o.person == (match last_line(b, "person"@) { Some(l) => PersonData::parse(l), None => None })
    &&& o.clothing == (match last_line(b, "clothing"@) { Some(l) => ClothingData::parse(l), None => None })
    &&& sounds_view(o.sounds) == last_line(b, "sounds"@)
    &&& o.numSlots == (match last_line(b, "numSlots"@) { Some(l) => NumSlotsData::parse(l), None => None })
    &&& o.numUses == (match last_line(b, "numUses"@) { Some(l) => NumUsesData::parse(l), None => None })
}

/// Each single-line field holds what the last line bearing its name gives.
pub open spec fn read_fields(o: OneLifeDataObject, b: Seq<Seq<char>>) -> bool {
    read_flag_fields(o, b) && read_int_fields(o, b) && read_misc_fields(o, b) && read_comp_fields(o, b)
}

proof fn lemma_flag_step(o1: OneLifeDataObject, o2: OneLifeDataObject, b: Seq<Seq<char>>, v: Seq<char>)
    requires
        b.len() >= 2,
        entry_value(b.last()) == Some(v),
        read_flag_fields(o1, b.drop_last()),
        entry_name(b.last()) == "containable"@ ==> o2.containable == Some(v != "0"@),
        entry_name(b.last()) != "containable"@ ==> o2.containable == o1.containable,
        entry_name(b.last()) == "noFlip"@ ==> o2.noFlip == Some(v != "0"@),
        entry_name(b.last()) != "noFlip"@ ==> o2.noFlip == o1.noFlip,
        entry_name(b.last()) == "sideAccess"@ ==> o2.sideAccess == Some(v != "0"@),
        entry_name(b.last()) != "sideAccess"@ ==> o2.sideAccess == o1.sideAccess,
        entry_name(b.last()) == "male"@ ==> o2.male == Some(v != "0"@),
        entry_name(b.last()) != "male"@ ==> o2.male == o1.male,
        entry_name(b.last()) == "deathMarker"@ ==> o2.deathMarker == Some(v != "0"@),
        entry_name(b.last()) != "deathMarker"@ ==> o2.deathMarker == o1.deathMarker,
        entry_name(b.last()) == "homeMarker"@ ==> o2.homeMarker == Some(v != "0"@),
        entry_name(b.last()) != "homeMarker"@ ==> o2.homeMarker == o1.homeMarker,
        entry_name(b.last()) == "floor"@ ==> o2.floor == Some(v != "0"@),
        entry_name(b.last()) != "floor"@ ==> o2.floor == o1.floor,
        entry_name(b.last()) == "floorHugging"@ ==> o2.floorHugging == Some(v != "0"@),
        entry_name(b.last()) != "floorHugging"@ ==> o2.floorHugging == o1.floorHugging,
        entry_name(b.last()) == "wallLayer"@ ==> o2.wallLayer == Some(v != "0"@),
        entry_name(b.last()) != "wallLayer"@ ==> o2.wallLayer == o1.wallLayer,
        entry_name(b.last()) == "creationSoundInitialOnly"@ ==> o2.creationSoundInitialOnly == Some(v != "0"@),
        entry_name(b.last()) != "creationSoundInitialOnly"@ ==> o2.creationSoundInitialOnly == o1.creationSoundInitialOnly,
        entry_name(b.last()) == "creationSoundForce"@ ==> o2.creationSoundForce == Some(v != "0"@),
        entry_name(b.last()) != "creationSoundForce"@ ==> o2.creationSoundForce == o1.creationSoundForce,
        entry_name(b.last()) == "slotsLocked"@ ==> o2.slotsLocked == Some(v != "0"@),
        entry_name(b.last()) != "slotsLocked"@ ==> o2.slotsLocked == o1.slotsLocked,
        entry_name(b.last()) == "slotsNoSwap"@ ==> o2.slotsNoSwap == Some(v != "0"@),
        entry_name(b.last()) != "slotsNoSwap"@ ==> o2.slotsNoSwap == o1.slotsNoSwap,
    ensures
        read_flag_fields(o2, b),
{
}

proof fn lemma_flag_skip(o: OneLifeDataObject, b: Seq<Seq<char>>)
    requires
        b.len() >= 2,
        !field_name(entry_name(b.last())),
        read_flag_fields(o, b.drop_last()),
    ensures
        read_flag_fields(o, b),
{
}

proof fn lemma_int_step(o1: OneLifeDataObject, o2: OneLifeDataObject, b: Seq<Seq<char>>, v: Seq<char>)
    requires
        b.len() >= 2,
        entry_value(b.last()) == Some(v),
        read_int_fields(o1, b.drop_last()),
        entry_name(b.last()) == "heldInHand"@ ==> int_of_i8(o2.heldInHand) == parse_int_within(v, -128, 127),
        entry_name(b.last()) != "heldInHand"@ ==> o2.heldInHand == o1.heldInHand,
        entry_name(b.last()) == "ridingAnimationIndex"@ ==> widen32(o2.ridingAnimationIndex) == parse_int_within(v, i32::MIN as int, i32::MAX as int),
        entry_name(b.last()) != "ridingAnimationIndex"@ ==> o2.ridingAnimationIndex == o1.ridingAnimationIndex,
        entry_name(b.last()) == "heatValue"@ ==> widen32(o2.heatValue) == parse_int_within(v, i32::MIN as int, i32::MAX as int),
        entry_name(b.last()) != "heatValue"@ ==> o2.heatValue == o1.heatValue,
        entry_name(b.last()) == "partialFloor"@ ==> int_of_i8(o2.partialFloor) == parse_int_within(v, -128, 127),
        entry_name(b.last()) != "partialFloor"@ ==> o2.partialFloor == o1.partialFloor,
        entry_name(b.last()) == "frontWall"@ ==> widen32(o2.frontWall) == parse_int_within(v, i32::MIN as int, i32::MAX as int),
        entry_name(b.last()) != "frontWall"@ ==> o2.frontWall == o1.frontWall,
        entry_name(b.last()) == "deadlyDistance"@ ==> widen32(o2.deadlyDistance) == parse_int_within(v, i32::MIN as int, i32::MAX as int),
        entry_name(b.last()) != "deadlyDistance"@ ==> o2.deadlyDistance == o1.deadlyDistance,
        entry_name(b.last()) == "useDistance"@ ==> widen32(o2.useDistance) == parse_int_within(v, i32::MIN as int, i32::MAX as int),
        entry_name(b.last()) != "useDistance"@ ==> o2.useDistance == o1.useDistance,
        entry_name(b.last()) == "slotStyle"@ ==> widen32(o2.slotStyle) == parse_int_within(v, i32::MIN as int, i32::MAX as int),
        entry_name(b.last()) != "slotStyle"@ ==> o2.slotStyle == o1.slotStyle,
        entry_name(b.last()) == "numSprites"@ ==> widen32(o2.numSprites) == parse_int_within(v, i32::MIN as int, i32::MAX as int),
        entry_name(b.last()) != "numSprites"@ ==> o2.numSprites == o1.numSprites,
        entry_name(b.last()) == "pixHeight"@ ==> widen32(o2.pixHeight) == parse_int_within(v, i32::MIN as int, i32::MAX as int),
        entry_name(b.last()) != "pixHeight"@ ==> o2.pixHeight == o1.pixHeight,
    ensures
        read_int_fields(o2, b),
{
}

proof fn lemma_int_skip(o: OneLifeDataObject, b: Seq<Seq<char>>)
    requires
        b.len() >= 2,
        !field_name(entry_name(b.last())),
        read_int_fields(o, b.drop_last()),
    ensures
        read_int_fields(o, b),
{
}

proof fn lemma_misc_step(o1: OneLifeDataObject, o2: OneLifeDataObject, b: Seq<Seq<char>>, v: Seq<char>)
    requires
        b.len() >= 2,
        entry_value(b.last()) == Some(v),
        read_misc_fields(o1, b.drop_last()),
        entry_name(b.last()) == "rValue"@ ==> o2.rValue == fixed_of(v),
        entry_name(b.last()) != "rValue"@ ==> o2.rValue == o1.rValue,
        entry_name(b.last()) == "foodValue"@ ==> ints_view(o2.foodValue) == Some(lenient_ints(split(v, ','), i32::MIN as int, i32::MAX as int)),
        entry_name(b.last()) != "foodValue"@ ==> o2.foodValue == o1.foodValue,
        entry_name(b.last()) == "speedMult"@ ==> o2.speedMult == fixed_of(v),
        entry_name(b.last()) != "speedMult"@ ==> o2.speedMult == o1.speedMult,
        entry_name(b.last()) == "containOffset"@ ==> o2.containOffset == I32Pair::parse(v),
        entry_name(b.last()) != "containOffset"@ ==> o2.containOffset == o1.containOffset,
        entry_name(b.last()) == "heldOffset"@ ==> o2.heldOffset == DoublePair::parse(v),
        entry_name(b.last()) != "heldOffset"@ ==> o2.heldOffset == o1.heldOffset,
        entry_name(b.last()) == "clothingOffset"@ ==> o2.clothingOffset == DoublePair::parse(v),
        entry_name(b.last()) != "clothingOffset"@ ==> o2.clothingOffset == o1.clothingOffset,
        entry_name(b.last()) == "slotSize"@ ==> o2.slotSize == fixed_of(v),
        entry_name(b.last()) != "slotSize"@ ==> o2.slotSize == o1.slotSize,
        entry_name(b.last()) == "headIndex"@ ==> ints_view(o2.headIndex) == Some(lenient_ints(split(v, ','), i32::MIN as int, i32::MAX as int)),
        entry_name(b.last()) != "headIndex"@ ==> o2.headIndex == o1.headIndex,
        entry_name(b.last()) == "bodyIndex"@ ==> ints_view(o2.bodyIndex) == Some(lenient_ints(split(v, ','), i32::MIN as int, i32::MAX as int)),
        entry_name(b.last()) != "bodyIndex"@ ==> o2.bodyIndex == o1.bodyIndex,
        entry_name(b.last()) == "backFootIndex"@ ==> ints_view(o2.backFootIndex) == Some(lenient_ints(split(v, ','), i32::MIN as int, i32::MAX as int)),
        entry_name(b.last()) != "backFootIndex"@ ==> o2.backFootIndex == o1.backFootIndex,
        entry_name(b.last()) == "frontFootIndex"@ ==> ints_view(o2.frontFootIndex) == Some(lenient_ints(split(v, ','), i32::MIN as int, i32::MAX as int)),
        entry_name(b.last()) != "frontFootIndex"@ ==> o2.frontFootIndex == o1.frontFootIndex,
        entry_name(b.last()) == "useVanishIndex"@ ==> ints_view(o2.useVanishIndex) == Some(lenient_ints(split(v, ','), i32::MIN as int, i32::MAX as int)),
        entry_name(b.last()) != "useVanishIndex"@ ==> o2.useVanishIndex == o1.useVanishIndex,
        entry_name(b.last()) == "useAppearIndex"@ ==> ints_view(o2.useAppearIndex) == Some(lenient_ints(split(v, ','), i32::MIN as int, i32::MAX as int)),
        entry_name(b.last()) != "useAppearIndex"@ ==> o2.useAppearIndex == o1.useAppearIndex,
    ensures
        read_misc_fields(o2, b),
{
}

proof fn lemma_misc_skip(o: OneLifeDataObject, b: Seq<Seq<char>>)
    requires
        b.len() >= 2,
        !field_name(entry_name(b.last())),
        read_misc_fields(o, b.drop_last()),
    ensures
        read_misc_fields(o, b),
{
}

proof fn lemma_comp_step(o1: OneLifeDataObject, o2: OneLifeDataObject, b: Seq<Seq<char>>, v: Seq<char>)
    requires
        b.len() >= 2,
        entry_value(b.last()) == Some(v),
        read_comp_fields(o1, b.drop_last()),
        entry_name(b.last()) == "containSize"@ ==> o2.containSize == ContainSizeData::parse(b.last()),
        entry_name(b.last()) != "containSize"@ ==> o2.containSize == o1.containSize,
        entry_name(b.last()) == "permanent"@ ==> o2.permanent == PermanentData::parse(b.last()),
        entry_name(b.last()) != "permanent"@ ==> o2.permanent == o1.permanent,
        entry_name(b.last()) == "blocksWalking"@ ==> o2.blocksWalking == BlocksWalkingData::parse(b.last()),
        entry_name(b.last()) != "blocksWalking"@ ==> o2.blocksWalking == o1.blocksWalking,
        entry_name(b.last()) == "mapChance"@ ==> map_view(o2.mapChance) == MapChanceData::parse(b.last()),
        entry_name(b.last()) != "mapChance"@ ==> o2.mapChance == o1.mapChance,
        entry_name(b.last()) == "person"@ ==> o2.person == PersonData::parse(b.last()),
        entry_name(b.last()) != "person"@ ==> o2.person == o1.person,
        entry_name(b.last()) == "clothing"@ ==> o2.clothing == ClothingData::parse(b.last()),
        entry_name(b.last()) != "clothing"@ ==> o2.clothing == o1.clothing,
        entry_name(b.last()) == "sounds"@ ==> sounds_view(o2.sounds) == Some(b.last()),
        entry_name(b.last()) != "sounds"@ ==> o2.sounds == o1.sounds,
        entry_name(b.last()) == "numSlots"@ ==> o2.numSlots == NumSlotsData::parse(b.last()),
        entry_name(b.last()) != "numSlots"@ ==> o2.numSlots == o1.numSlots,
        entry_name(b.last()) == "numUses"@ ==> o2.numUses == NumUsesData::parse(b.last()),
        entry_name(b.last()) != "numUses"@ ==> o2.numUses == o1.numUses,
    ensures
        read_comp_fields(o2, b),
{
}

proof fn lemma_comp_skip(o: OneLifeDataObject, b: Seq<Seq<char>>)
    requires
        b.len() >= 2,
        !field_name(entry_name(b.last())),
        read_comp_fields(o, b.drop_last()),
    ensures
        read_comp_fields(o, b),
{
}

proof fn lemma_insert_other(b: Seq<Seq<char>>, k: int, line: Seq<char>, n: Seq<char>)
    requires
        1 <= k <= b.len(),
        entry_name(line) != n,
    ensures
        last_named(b.insert(k, line), n) == last_named(b, n),
        last_line(b.insert(k, line), n) == last_line(b, n),
    decreases b.len(),
{
    let c = b.insert(k, line);
    if k == b.len() {
        assert(c.drop_last() =~= b);
    } else {
        assert(c.drop_last() =~= b.drop_last().insert(k, line));
        assert(c.last() == b.last());
        lemma_insert_other(b.drop_last(), k, line, n);
    }
}

/// A line whose name is no field of the record, wherever it stands after the
/// name line, leaves every field that the record reads from its lines as it
/// was.
pub proof fn lemma_unknown_line_ignored(o: OneLifeDataObject, b: Seq<Seq<char>>, k: int, line: Seq<char>)
    requires
        1 <= k <= b.len(),
        !field_name(entry_name(line)),
    ensures
        read_fields(o, b.insert(k, line)) == read_fields(o, b),
{
    assert forall|n: Seq<char>| n != entry_name(line) implies #[trigger] last_named(b.insert(k, line), n)
        == last_named(b, n) by {
        lemma_insert_other(b, k, line, n);
    }
    assert forall|n: Seq<char>| n != entry_name(line) implies #[trigger] last_line(b.insert(k, line), n)
        == last_line(b, n) by {
        lemma_insert_other(b, k, line, n);
    }
    assert(read_flag_fields(o, b.insert(k, line)) == read_flag_fields(o, b));
    assert(read_int_fields(o, b.insert(k, line)) == read_int_fields(o, b));
    assert(read_misc_fields(o, b.insert(k, line)) == read_misc_fields(o, b));
    assert(read_comp_fields(o, b.insert(k, line)) == read_comp_fields(o, b));
}

/// Reading a record passes over a line whose name is no field of the
/// format: from that line on, it reads as from the next.
pub proof fn lemma_unknown_line_skipped(b: Seq<Seq<char>>, k: int)
    requires
        1 <= k < b.len(),
        entry_value(b[k]) is Some,
        !field_name(entry_name(b[k])),
        entry_name(b[k]) != "spriteID"@,
        entry_name(b[k]) != "slotPos"@,
    ensures
        scan(b, k) == scan(b, k + 1),
{
    assert(b[k].len() > 0) by {
        if b[k].len() == 0 {
            assert(b[k] =~= Seq::<char>::empty());
            assert(split(b[k], '=') =~= seq![Seq::<char>::empty()]);
        }
    }
    assert(!line_fails(entry_name(b[k]), entry_value(b[k])->0, b[k]));
}

proof fn lemma_other_names()
    ensures
        !field_name("spriteID"@),
        !field_name("slotPos"@),
        !field_name(Seq::<char>::empty()),
        forall|n: Seq<char>| #[trigger] crate::sprite::is_sprite_field(n) ==> !field_name(n),
{
    assert(Seq::<char>::empty() != "containable"@) by { reveal_strlit("containable"); assert("containable"@.len() > 0); }
    assert(Seq::<char>::empty() != "containSize"@) by { reveal_strlit("containSize"); assert("containSize"@.len() > 0); }
    assert(Seq::<char>::empty() != "permanent"@) by { reveal_strlit("permanent"); assert("permanent"@.len() > 0); }
    assert(Seq::<char>::empty() != "noFlip"@) by { reveal_strlit("noFlip"); assert("noFlip"@.len() > 0); }
    assert(Seq::<char>::empty() != "sideAccess"@) by { reveal_strlit("sideAccess"); assert("sideAccess"@.len() > 0); }
    assert(Seq::<char>::empty() != "heldInHand"@) by { reveal_strlit("heldInHand"); assert("heldInHand"@.len() > 0); }
    assert(Seq::<char>::empty() != "ridingAnimationIndex"@) by { reveal_strlit("ridingAnimationIndex"); assert("ridingAnimationIndex"@.len() > 0); }
    assert(Seq::<char>::empty() != "blocksWalking"@) by { reveal_strlit("blocksWalking"); assert("blocksWalking"@.len() > 0); }
    assert(Seq::<char>::empty() != "mapChance"@) by { reveal_strlit("mapChance"); assert("mapChance"@.len() > 0); }
    assert(Seq::<char>::empty() != "heatValue"@) by { reveal_strlit("heatValue"); assert("heatValue"@.len() > 0); }
    assert(Seq::<char>::empty() != "rValue"@) by { reveal_strlit("rValue"); assert("rValue"@.len() > 0); }
    assert(Seq::<char>::empty() != "person"@) by { reveal_strlit("person"); assert("person"@.len() > 0); }
    assert(Seq::<char>::empty() != "male"@) by { reveal_strlit("male"); assert("male"@.len() > 0); }
    assert(Seq::<char>::empty() != "deathMarker"@) by { reveal_strlit("deathMarker"); assert("deathMarker"@.len() > 0); }
    assert(Seq::<char>::empty() != "homeMarker"@) by { reveal_strlit("homeMarker"); assert("homeMarker"@.len() > 0); }
    assert(Seq::<char>::empty() != "floor"@) by { reveal_strlit("floor"); assert("floor"@.len() > 0); }
    assert(Seq::<char>::empty() != "partialFloor"@) by { reveal_strlit("partialFloor"); assert("partialFloor"@.len() > 0); }
    assert(Seq::<char>::empty() != "floorHugging"@) by { reveal_strlit("floorHugging"); assert("floorHugging"@.len() > 0); }
    assert(Seq::<char>::empty() != "wallLayer"@) by { reveal_strlit("wallLayer"); assert("wallLayer"@.len() > 0); }
    assert(Seq::<char>::empty() != "frontWall"@) by { reveal_strlit("frontWall"); assert("frontWall"@.len() > 0); }
    assert(Seq::<char>::empty() != "foodValue"@) by { reveal_strlit("foodValue"); assert("foodValue"@.len() > 0); }
    assert(Seq::<char>::empty() != "speedMult"@) by { reveal_strlit("speedMult"); assert("speedMult"@.len() > 0); }
    assert(Seq::<char>::empty() != "containOffset"@) by { reveal_strlit("containOffset"); assert("containOffset"@.len() > 0); }
    assert(Seq::<char>::empty() != "heldOffset"@) by { reveal_strlit("heldOffset"); assert("heldOffset"@.len() > 0); }
    assert(Seq::<char>::empty() != "clothing"@) by { reveal_strlit("clothing"); assert("clothing"@.len() > 0); }
    assert(Seq::<char>::empty() != "clothingOffset"@) by { reveal_strlit("clothingOffset"); assert("clothingOffset"@.len() > 0); }
    assert(Seq::<char>::empty() != "deadlyDistance"@) by { reveal_strlit("deadlyDistance"); assert("deadlyDistance"@.len() > 0); }
    assert(Seq::<char>::empty() != "useDistance"@) by { reveal_strlit("useDistance"); assert("useDistance"@.len() > 0); }
    assert(Seq::<char>::empty() != "sounds"@) by { reveal_strlit("sounds"); assert("sounds"@.len() > 0); }
    assert(Seq::<char>::empty() != "creationSoundInitialOnly"@) by { reveal_strlit("creationSoundInitialOnly"); assert("creationSoundInitialOnly"@.len() > 0); }
    assert(Seq::<char>::empty() != "creationSoundForce"@) by { reveal_strlit("creationSoundForce"); assert("creationSoundForce"@.len() > 0); }
    assert(Seq::<char>::empty() != "numSlots"@) by { reveal_strlit("numSlots"); assert("numSlots"@.len() > 0); }
    assert(Seq::<char>::empty() != "slotSize"@) by { reveal_strlit("slotSize"); assert("slotSize"@.len() > 0); }
    assert(Seq::<char>::empty() != "slotStyle"@) by { reveal_strlit("slotStyle"); assert("slotStyle"@.len() > 0); }
    assert(Seq::<char>::empty() != "slotsLocked"@) by { reveal_strlit("slotsLocked"); assert("slotsLocked"@.len() > 0); }
    assert(Seq::<char>::empty() != "slotsNoSwap"@) by { reveal_strlit("slotsNoSwap"); assert("slotsNoSwap"@.len() > 0); }
    assert(Seq::<char>::empty() != "numSprites"@) by { reveal_strlit("numSprites"); assert("numSprites"@.len() > 0); }
    assert(Seq::<char>::empty() != "headIndex"@) by { reveal_strlit("headIndex"); assert("headIndex"@.len() > 0); }
    assert(Seq::<char>::empty() != "bodyIndex"@) by { reveal_strlit("bodyIndex"); assert("bodyIndex"@.len() > 0); }
    assert(Seq::<char>::empty() != "backFootIndex"@) by { reveal_strlit("backFootIndex"); assert("backFootIndex"@.len() > 0); }
    assert(Seq::<char>::empty() != "frontFootIndex"@) by { reveal_strlit("frontFootIndex"); assert("frontFootIndex"@.len() > 0); }
    assert(Seq::<char>::empty() != "numUses"@) by { reveal_strlit("numUses"); assert("numUses"@.len() > 0); }
    assert(Seq::<char>::empty() != "useVanishIndex"@) by { reveal_strlit("useVanishIndex"); assert("useVanishIndex"@.len() > 0); }
    assert(Seq::<char>::empty() != "useAppearIndex"@) by { reveal_strlit("useAppearIndex"); assert("useAppearIndex"@.len() > 0); }
    assert(Seq::<char>::empty() != "pixHeight"@) by { reveal_strlit("pixHeight"); assert("pixHeight"@.len() > 0); }
    assert("spriteID"@ != "containable"@) by { reveal_strlit("spriteID"); reveal_strlit("containable"); assert("spriteID"@.len() != "containable"@.len()); }
    assert("spriteID"@ != "containSize"@) by { reveal_strlit("spriteID"); reveal_strlit("containSize"); assert("spriteID"@.len() != "containSize"@.len()); }
    assert("spriteID"@ != "permanent"@) by { reveal_strlit("spriteID"); reveal_strlit("permanent"); assert("spriteID"@.len() != "permanent"@.len()); }
    assert("spriteID"@ != "noFlip"@) by { reveal_strlit("spriteID"); reveal_strlit("noFlip"); assert("spriteID"@.len() != "noFlip"@.len()); }
    assert("spriteID"@ != "sideAccess"@) by { reveal_strlit("spriteID"); reveal_strlit("sideAccess"); assert("spriteID"@.len() != "sideAccess"@.len()); }
    assert("spriteID"@ != "heldInHand"@) by { reveal_strlit("spriteID"); reveal_strlit("heldInHand"); assert("spriteID"@.len() != "heldInHand"@.len()); }
    assert("spriteID"@ != "ridingAnimationIndex"@) by { reveal_strlit("spriteID"); reveal_strlit("ridingAnimationIndex"); assert("spriteID"@.len() != "ridingAnimationIndex"@.len()); }
    assert("spriteID"@ != "blocksWalking"@) by { reveal_strlit("spriteID"); reveal_strlit("blocksWalking"); assert("spriteID"@.len() != "blocksWalking"@.len()); }
    assert("spriteID"@ != "mapChance"@) by { reveal_strlit("spriteID"); reveal_strlit("mapChance"); assert("spriteID"@.len() != "mapChance"@.len()); }
    assert("spriteID"@ != "heatValue"@) by { reveal_strlit("spriteID"); reveal_strlit("heatValue"); assert("spriteID"@.len() != "heatValue"@.len()); }
    assert("spriteID"@ != "rValue"@) by { reveal_strlit("spriteID"); reveal_strlit("rValue"); assert("spriteID"@.len() != "rValue"@.len()); }
    assert("spriteID"@ != "person"@) by { reveal_strlit("spriteID"); reveal_strlit("person"); assert("spriteID"@.len() != "person"@.len()); }
    assert("spriteID"@ != "male"@) by { reveal_strlit("spriteID"); reveal_strlit("male"); assert("spriteID"@.len() != "male"@.len()); }
    assert("spriteID"@ != "deathMarker"@) by { reveal_strlit("spriteID"); reveal_strlit("deathMarker"); assert("spriteID"@.len() != "deathMarker"@.len()); }
    assert("spriteID"@ != "homeMarker"@) by { reveal_strlit("spriteID"); reveal_strlit("homeMarker"); assert("spriteID"@.len() != "homeMarker"@.len()); }
    assert("spriteID"@ != "floor"@) by { reveal_strlit("spriteID"); reveal_strlit("floor"); assert("spriteID"@.len() != "floor"@.len()); }
    assert("spriteID"@ != "partialFloor"@) by { reveal_strlit("spriteID"); reveal_strlit("partialFloor"); assert("spriteID"@.len() != "partialFloor"@.len()); }
    assert("spriteID"@ != "floorHugging"@) by { reveal_strlit("spriteID"); reveal_strlit("floorHugging"); assert("spriteID"@.len() != "floorHugging"@.len()); }
    assert("spriteID"@ != "wallLayer"@) by { reveal_strlit("spriteID"); reveal_strlit("wallLayer"); assert("spriteID"@.len() != "wallLayer"@.len()); }
    assert("spriteID"@ != "frontWall"@) by { reveal_strlit("spriteID"); reveal_strlit("frontWall"); assert("spriteID"@.len() != "frontWall"@.len()); }
    assert("spriteID"@ != "foodValue"@) by { reveal_strlit("spriteID"); reveal_strlit("foodValue"); assert("spriteID"@.len() != "foodValue"@.len()); }
    assert("spriteID"@ != "speedMult"@) by { reveal_strlit("spriteID"); reveal_strlit("speedMult"); assert("spriteID"@.len() != "speedMult"@.len()); }
    assert("spriteID"@ != "containOffset"@) by { reveal_strlit("spriteID"); reveal_strlit("containOffset"); assert("spriteID"@.len() != "containOffset"@.len()); }
    assert("spriteID"@ != "heldOffset"@) by { reveal_strlit("spriteID"); reveal_strlit("heldOffset"); assert("spriteID"@.len() != "heldOffset"@.len()); }
    assert("spriteID"@ != "clothing"@) by { reveal_strlit("spriteID"); reveal_strlit("clothing"); assert("spriteID"@[0] != "clothing"@[0]); }
    assert("spriteID"@ != "clothingOffset"@) by { reveal_strlit("spriteID"); reveal_strlit("clothingOffset"); assert("spriteID"@.len() != "clothingOffset"@.len()); }
    assert("spriteID"@ != "deadlyDistance"@) by { reveal_strlit("spriteID"); reveal_strlit("deadlyDistance"); assert("spriteID"@.len() != "deadlyDistance"@.len()); }
    assert("spriteID"@ != "useDistance"@) by { reveal_strlit("spriteID"); reveal_strlit("useDistance"); assert("spriteID"@.len() != "useDistance"@.len()); }
    assert("spriteID"@ != "sounds"@) by { reveal_strlit("spriteID"); reveal_strlit("sounds"); assert("spriteID"@.len() != "sounds"@.len()); }
    assert("spriteID"@ != "creationSoundInitialOnly"@) by { reveal_strlit("spriteID"); reveal_strlit("creationSoundInitialOnly"); assert("spriteID"@.len() != "creationSoundInitialOnly"@.len()); }
    assert("spriteID"@ != "creationSoundForce"@) by { reveal_strlit("spriteID"); reveal_strlit("creationSoundForce"); assert("spriteID"@.len() != "creationSoundForce"@.len()); }
    assert("spriteID"@ != "numSlots"@) by { reveal_strlit("spriteID"); reveal_strlit("numSlots"); assert("spriteID"@[0] != "numSlots"@[0]); }
    assert("spriteID"@ != "slotSize"@) by { reveal_strlit("spriteID"); reveal_strlit("slotSize"); assert("spriteID"@[1] != "slotSize"@[1]); }
    assert("spriteID"@ != "slotStyle"@) by { reveal_strlit("spriteID"); reveal_strlit("slotStyle"); assert("spriteID"@.len() != "slotStyle"@.len()); }
    assert("spriteID"@ != "slotsLocked"@) by { reveal_strlit("spriteID"); reveal_strlit("slotsLocked"); assert("spriteID"@.len() != "slotsLocked"@.len()); }
    assert("spriteID"@ != "slotsNoSwap"@) by { reveal_strlit("spriteID"); reveal_strlit("slotsNoSwap"); assert("spriteID"@.len() != "slotsNoSwap"@.len()); }
    assert("spriteID"@ != "numSprites"@) by { reveal_strlit("spriteID"); reveal_strlit("numSprites"); assert("spriteID"@.len() != "numSprites"@.len()); }
    assert("spriteID"@ != "headIndex"@) by { reveal_strlit("spriteID"); reveal_strlit("headIndex"); assert("spriteID"@.len() != "headIndex"@.len()); }
    assert("spriteID"@ != "bodyIndex"@) by { reveal_strlit("spriteID"); reveal_strlit("bodyIndex"); assert("spriteID"@.len() != "bodyIndex"@.len()); }
    assert("spriteID"@ != "backFootIndex"@) by { reveal_strlit("spriteID"); reveal_strlit("backFootIndex"); assert("spriteID"@.len() != "backFootIndex"@.len()); }
    assert("spriteID"@ != "frontFootIndex"@) by { reveal_strlit("spriteID"); reveal_strlit("frontFootIndex"); assert("spriteID"@.len() != "frontFootIndex"@.len()); }
    assert("spriteID"@ != "numUses"@) by { reveal_strlit("spriteID"); reveal_strlit("numUses"); assert("spriteID"@.len() != "numUses"@.len()); }
    assert("spriteID"@ != "useVanishIndex"@) by { reveal_strlit("spriteID"); reveal_strlit("useVanishIndex"); assert("spriteID"@.len() != "useVanishIndex"@.len()); }
    assert("spriteID"@ != "useAppearIndex"@) by { reveal_strlit("spriteID"); reveal_strlit("useAppearIndex"); assert("spriteID"@.len() != "useAppearIndex"@.len()); }
    assert("spriteID"@ != "pixHeight"@) by { reveal_strlit("spriteID"); reveal_strlit("pixHeight"); assert("spriteID"@.len() != "pixHeight"@.len()); }
    assert("slotPos"@ != "containable"@) by { reveal_strlit("slotPos"); reveal_strlit("containable"); assert("slotPos"@.len() != "containable"@.len()); }
    assert("slotPos"@ != "containSize"@) by { reveal_strlit("slotPos"); reveal_strlit("containSize"); assert("slotPos"@.len() != "containSize"@.len()); }
    assert("slotPos"@ != "permanent"@) by { reveal_strlit("slotPos"); reveal_strlit("permanent"); assert("slotPos"@.len() != "permanent"@.len()); }
    assert("slotPos"@ != "noFlip"@) by { reveal_strlit("slotPos"); reveal_strlit("noFlip"); assert("slotPos"@.len() != "noFlip"@.len()); }
    assert("slotPos"@ != "sideAccess"@) by { reveal_strlit("slotPos"); reveal_strlit("sideAccess"); assert("slotPos"@.len() != "sideAccess"@.len()); }
    assert("slotPos"@ != "heldInHand"@) by { reveal_strlit("slotPos"); reveal_strlit("heldInHand"); assert("slotPos"@.len() != "heldInHand"@.len()); }
    assert("slotPos"@ != "ridingAnimationIndex"@) by { reveal_strlit("slotPos"); reveal_strlit("ridingAnimationIndex"); assert("slotPos"@.len() != "ridingAnimationIndex"@.len()); }
    assert("slotPos"@ != "blocksWalking"@) by { reveal_strlit("slotPos"); reveal_strlit("blocksWalking"); assert("slotPos"@.len() != "blocksWalking"@.len()); }
    assert("slotPos"@ != "mapChance"@) by { reveal_strlit("slotPos"); reveal_strlit("mapChance"); assert("slotPos"@.len() != "mapChance"@.len()); }
    assert("slotPos"@ != "heatValue"@) by { reveal_strlit("slotPos"); reveal_strlit("heatValue"); assert("slotPos"@.len() != "heatValue"@.len()); }
    assert("slotPos"@ != "rValue"@) by { reveal_strlit("slotPos"); reveal_strlit("rValue"); assert("slotPos"@.len() != "rValue"@.len()); }
    assert("slotPos"@ != "person"@) by { reveal_strlit("slotPos"); reveal_strlit("person"); assert("slotPos"@.len() != "person"@.len()); }
    assert("slotPos"@ != "male"@) by { reveal_strlit("slotPos"); reveal_strlit("male"); assert("slotPos"@.len() != "male"@.len()); }
    assert("slotPos"@ != "deathMarker"@) by { reveal_strlit("slotPos"); reveal_strlit("deathMarker"); assert("slotPos"@.len() != "deathMarker"@.len()); }
    assert("slotPos"@ != "homeMarker"@) by { reveal_strlit("slotPos"); reveal_strlit("homeMarker"); assert("slotPos"@.len() != "homeMarker"@.len()); }
    assert("slotPos"@ != "floor"@) by { reveal_strlit("slotPos"); reveal_strlit("floor"); assert("slotPos"@.len() != "floor"@.len()); }
    assert("slotPos"@ != "partialFloor"@) by { reveal_strlit("slotPos"); reveal_strlit("partialFloor"); assert("slotPos"@.len() != "partialFloor"@.len()); }
    assert("slotPos"@ != "floorHugging"@) by { reveal_strlit("slotPos"); reveal_strlit("floorHugging"); assert("slotPos"@.len() != "floorHugging"@.len()); }
    assert("slotPos"@ != "wallLayer"@) by { reveal_strlit("slotPos"); reveal_strlit("wallLayer"); assert("slotPos"@.len() != "wallLayer"@.len()); }
    assert("slotPos"@ != "frontWall"@) by { reveal_strlit("slotPos"); reveal_strlit("frontWall"); assert("slotPos"@.len() != "frontWall"@.len()); }
    assert("slotPos"@ != "foodValue"@) by { reveal_strlit("slotPos"); reveal_strlit("foodValue"); assert("slotPos"@.len() != "foodValue"@.len()); }
    assert("slotPos"@ != "speedMult"@) by { reveal_strlit("slotPos"); reveal_strlit("speedMult"); assert("slotPos"@.len() != "speedMult"@.len()); }
    assert("slotPos"@ != "containOffset"@) by { reveal_strlit("slotPos"); reveal_strlit("containOffset"); assert("slotPos"@.len() != "containOffset"@.len()); }
    assert("slotPos"@ != "heldOffset"@) by { reveal_strlit("slotPos"); reveal_strlit("heldOffset"); assert("slotPos"@.len() != "heldOffset"@.len()); }
    assert("slotPos"@ != "clothing"@) by { reveal_strlit("slotPos"); reveal_strlit("clothing"); assert("slotPos"@.len() != "clothing"@.len()); }
    assert("slotPos"@ != "clothingOffset"@) by { reveal_strlit("slotPos"); reveal_strlit("clothingOffset"); assert("slotPos"@.len() != "clothingOffset"@.len()); }
    assert("slotPos"@ != "deadlyDistance"@) by { reveal_strlit("slotPos"); reveal_strlit("deadlyDistance"); assert("slotPos"@.len() != "deadlyDistance"@.len()); }
    assert("slotPos"@ != "useDistance"@) by { reveal_strlit("slotPos"); reveal_strlit("useDistance"); assert("slotPos"@.len() != "useDistance"@.len()); }
    assert("slotPos"@ != "sounds"@) by { reveal_strlit("slotPos"); reveal_strlit("sounds"); assert("slotPos"@.len() != "sounds"@.len()); }
    assert("slotPos"@ != "creationSoundInitialOnly"@) by { reveal_strlit("slotPos"); reveal_strlit("creationSoundInitialOnly"); assert("slotPos"@.len() != "creationSoundInitialOnly"@.len()); }
    assert("slotPos"@ != "creationSoundForce"@) by { reveal_strlit("slotPos"); reveal_strlit("creationSoundForce"); assert("slotPos"@.len() != "creationSoundForce"@.len()); }
    assert("slotPos"@ != "numSlots"@) by { reveal_strlit("slotPos"); reveal_strlit("numSlots"); assert("slotPos"@.len() != "numSlots"@.len()); }
    assert("slotPos"@ != "slotSize"@) by { reveal_strlit("slotPos"); reveal_strlit("slotSize"); assert("slotPos"@.len() != "slotSize"@.len()); }
    assert("slotPos"@ != "slotStyle"@) by { reveal_strlit("slotPos"); reveal_strlit("slotStyle"); assert("slotPos"@.len() != "slotStyle"@.len()); }
    assert("slotPos"@ != "slotsLocked"@) by { reveal_strlit("slotPos"); reveal_strlit("slotsLocked"); assert("slotPos"@.len() != "slotsLocked"@.len()); }
    assert("slotPos"@ != "slotsNoSwap"@) by { reveal_strlit("slotPos"); reveal_strlit("slotsNoSwap"); assert("slotPos"@.len() != "slotsNoSwap"@.len()); }
    assert("slotPos"@ != "numSprites"@) by { reveal_strlit("slotPos"); reveal_strlit("numSprites"); assert("slotPos"@.len() != "numSprites"@.len()); }
    assert("slotPos"@ != "headIndex"@) by { reveal_strlit("slotPos"); reveal_strlit("headIndex"); assert("slotPos"@.len() != "headIndex"@.len()); }
    assert("slotPos"@ != "bodyIndex"@) by { reveal_strlit("slotPos"); reveal_strlit("bodyIndex"); assert("slotPos"@.len() != "bodyIndex"@.len()); }
    assert("slotPos"@ != "backFootIndex"@) by { reveal_strlit("slotPos"); reveal_strlit("backFootIndex"); assert("slotPos"@.len() != "backFootIndex"@.len()); }
    assert("slotPos"@ != "frontFootIndex"@) by { reveal_strlit("slotPos"); reveal_strlit("frontFootIndex"); assert("slotPos"@.len() != "frontFootIndex"@.len()); }
    assert("slotPos"@ != "numUses"@) by { reveal_strlit("slotPos"); reveal_strlit("numUses"); assert("slotPos"@[0] != "numUses"@[0]); }
    assert("slotPos"@ != "useVanishIndex"@) by { reveal_strlit("slotPos"); reveal_strlit("useVanishIndex"); assert("slotPos"@.len() != "useVanishIndex"@.len()); }
    assert("slotPos"@ != "useAppearIndex"@) by { reveal_strlit("slotPos"); reveal_strlit("useAppearIndex"); assert("slotPos"@.len() != "useAppearIndex"@.len()); }
    assert("slotPos"@ != "pixHeight"@) by { reveal_strlit("slotPos"); reveal_strlit("pixHeight"); assert("slotPos"@.len() != "pixHeight"@.len()); }
    assert("pos"@ != "containable"@) by { reveal_strlit("pos"); reveal_strlit("containable"); assert("pos"@.len() != "containable"@.len()); }
    assert("pos"@ != "containSize"@) by { reveal_strlit("pos"); reveal_strlit("containSize"); assert("pos"@.len() != "containSize"@.len()); }
    assert("pos"@ != "permanent"@) by { reveal_strlit("pos"); reveal_strlit("permanent"); assert("pos"@.len() != "permanent"@.len()); }
    assert("pos"@ != "noFlip"@) by { reveal_strlit("pos"); reveal_strlit("noFlip"); assert("pos"@.len() != "noFlip"@.len()); }
    assert("pos"@ != "sideAccess"@) by { reveal_strlit("pos"); reveal_strlit("sideAccess"); assert("pos"@.len() != "sideAccess"@.len()); }
    assert("pos"@ != "heldInHand"@) by { reveal_strlit("pos"); reveal_strlit("heldInHand"); assert("pos"@.len() != "heldInHand"@.len()); }
    assert("pos"@ != "ridingAnimationIndex"@) by { reveal_strlit("pos"); reveal_strlit("ridingAnimationIndex"); assert("pos"@.len() != "ridingAnimationIndex"@.len()); }
    assert("pos"@ != "blocksWalking"@) by { reveal_strlit("pos"); reveal_strlit("blocksWalking"); assert("pos"@.len() != "blocksWalking"@.len()); }
    assert("pos"@ != "mapChance"@) by { reveal_strlit("pos"); reveal_strlit("mapChance"); assert("pos"@.len() != "mapChance"@.len()); }
    assert("pos"@ != "heatValue"@) by { reveal_strlit("pos"); reveal_strlit("heatValue"); assert("pos"@.len() != "heatValue"@.len()); }
    assert("pos"@ != "rValue"@) by { reveal_strlit("pos"); reveal_strlit("rValue"); assert("pos"@.len() != "rValue"@.len()); }
    assert("pos"@ != "person"@) by { reveal_strlit("pos"); reveal_strlit("person"); assert("pos"@.len() != "person"@.len()); }
    assert("pos"@ != "male"@) by { reveal_strlit("pos"); reveal_strlit("male"); assert("pos"@.len() != "male"@.len()); }
    assert("pos"@ != "deathMarker"@) by { reveal_strlit("pos"); reveal_strlit("deathMarker"); assert("pos"@.len() != "deathMarker"@.len()); }
    assert("pos"@ != "homeMarker"@) by { reveal_strlit("pos"); reveal_strlit("homeMarker"); assert("pos"@.len() != "homeMarker"@.len()); }
    assert("pos"@ != "floor"@) by { reveal_strlit("pos"); reveal_strlit("floor"); assert("pos"@.len() != "floor"@.len()); }
    assert("pos"@ != "partialFloor"@) by { reveal_strlit("pos"); reveal_strlit("partialFloor"); assert("pos"@.len() != "partialFloor"@.len()); }
    assert("pos"@ != "floorHugging"@) by { reveal_strlit("pos"); reveal_strlit("floorHugging"); assert("pos"@.len() != "floorHugging"@.len()); }
    assert("pos"@ != "wallLayer"@) by { reveal_strlit("pos"); reveal_strlit("wallLayer"); assert("pos"@.len() != "wallLayer"@.len()); }
    assert("pos"@ != "frontWall"@) by { reveal_strlit("pos"); reveal_strlit("frontWall"); assert("pos"@.len() != "frontWall"@.len()); }
    assert("pos"@ != "foodValue"@) by { reveal_strlit("pos"); reveal_strlit("foodValue"); assert("pos"@.len() != "foodValue"@.len()); }
    assert("pos"@ != "speedMult"@) by { reveal_strlit("pos"); reveal_strlit("speedMult"); assert("pos"@.len() != "speedMult"@.len()); }
    assert("pos"@ != "containOffset"@) by { reveal_strlit("pos"); reveal_strlit("containOffset"); assert("pos"@.len() != "containOffset"@.len()); }
    assert("pos"@ != "heldOffset"@) by { reveal_strlit("pos"); reveal_strlit("heldOffset"); assert("pos"@.len() != "heldOffset"@.len()); }
    assert("pos"@ != "clothing"@) by { reveal_strlit("pos"); reveal_strlit("clothing"); assert("pos"@.len() != "clothing"@.len()); }
    assert("pos"@ != "clothingOffset"@) by { reveal_strlit("pos"); reveal_strlit("clothingOffset"); assert("pos"@.len() != "clothingOffset"@.len()); }
    assert("pos"@ != "deadlyDistance"@) by { reveal_strlit("pos"); reveal_strlit("deadlyDistance"); assert("pos"@.len() != "deadlyDistance"@.len()); }
    assert("pos"@ != "useDistance"@) by { reveal_strlit("pos"); reveal_strlit("useDistance"); assert("pos"@.len() != "useDistance"@.len()); }
    assert("pos"@ != "sounds"@) by { reveal_strlit("pos"); reveal_strlit("sounds"); assert("pos"@.len() != "sounds"@.len()); }
    assert("pos"@ != "creationSoundInitialOnly"@) by { reveal_strlit("pos"); reveal_strlit("creationSoundInitialOnly"); assert("pos"@.len() != "creationSoundInitialOnly"@.len()); }
    assert("pos"@ != "creationSoundForce"@) by { reveal_strlit("pos"); reveal_strlit("creationSoundForce"); assert("pos"@.len() != "creationSoundForce"@.len()); }
    assert("pos"@ != "numSlots"@) by { reveal_strlit("pos"); reveal_strlit("numSlots"); assert("pos"@.len() != "numSlots"@.len()); }
    assert("pos"@ != "slotSize"@) by { reveal_strlit("pos"); reveal_strlit("slotSize"); assert("pos"@.len() != "slotSize"@.len()); }
    assert("pos"@ != "slotStyle"@) by { reveal_strlit("pos"); reveal_strlit("slotStyle"); assert("pos"@.len() != "slotStyle"@.len()); }
    assert("pos"@ != "slotsLocked"@) by { reveal_strlit("pos"); reveal_strlit("slotsLocked"); assert("pos"@.len() != "slotsLocked"@.len()); }
    assert("pos"@ != "slotsNoSwap"@) by { reveal_strlit("pos"); reveal_strlit("slotsNoSwap"); assert("pos"@.len() != "slotsNoSwap"@.len()); }
    assert("pos"@ != "numSprites"@) by { reveal_strlit("pos"); reveal_strlit("numSprites"); assert("pos"@.len() != "numSprites"@.len()); }
    assert("pos"@ != "headIndex"@) by { reveal_strlit("pos"); reveal_strlit("headIndex"); assert("pos"@.len() != "headIndex"@.len()); }
    assert("pos"@ != "bodyIndex"@) by { reveal_strlit("pos"); reveal_strlit("bodyIndex"); assert("pos"@.len() != "bodyIndex"@.len()); }
    assert("pos"@ != "backFootIndex"@) by { reveal_strlit("pos"); reveal_strlit("backFootIndex"); assert("pos"@.len() != "backFootIndex"@.len()); }
    assert("pos"@ != "frontFootIndex"@) by { reveal_strlit("pos"); reveal_strlit("frontFootIndex"); assert("pos"@.len() != "frontFootIndex"@.len()); }
    assert("pos"@ != "numUses"@) by { reveal_strlit("pos"); reveal_strlit("numUses"); assert("pos"@.len() != "numUses"@.len()); }
    assert("pos"@ != "useVanishIndex"@) by { reveal_strlit("pos"); reveal_strlit("useVanishIndex"); assert("pos"@.len() != "useVanishIndex"@.len()); }
    assert("pos"@ != "useAppearIndex"@) by { reveal_strlit("pos"); reveal_strlit("useAppearIndex"); assert("pos"@.len() != "useAppearIndex"@.len()); }
    assert("pos"@ != "pixHeight"@) by { reveal_strlit("pos"); reveal_strlit("pixHeight"); assert("pos"@.len() != "pixHeight"@.len()); }
    assert("rot"@ != "containable"@) by { reveal_strlit("rot"); reveal_strlit("containable"); assert("rot"@.len() != "containable"@.len()); }
    assert("rot"@ != "containSize"@) by { reveal_strlit("rot"); reveal_strlit("containSize"); assert("rot"@.len() != "containSize"@.len()); }
    assert("rot"@ != "permanent"@) by { reveal_strlit("rot"); reveal_strlit("permanent"); assert("rot"@.len() != "permanent"@.len()); }
    assert("rot"@ != "noFlip"@) by { reveal_strlit("rot"); reveal_strlit("noFlip"); assert("rot"@.len() != "noFlip"@.len()); }
    assert("rot"@ != "sideAccess"@) by { reveal_strlit("rot"); reveal_strlit("sideAccess"); assert("rot"@.len() != "sideAccess"@.len()); }
    assert("rot"@ != "heldInHand"@) by { reveal_strlit("rot"); reveal_strlit("heldInHand"); assert("rot"@.len() != "heldInHand"@.len()); }
    assert("rot"@ != "ridingAnimationIndex"@) by { reveal_strlit("rot"); reveal_strlit("ridingAnimationIndex"); assert("rot"@.len() != "ridingAnimationIndex"@.len()); }
    assert("rot"@ != "blocksWalking"@) by { reveal_strlit("rot"); reveal_strlit("blocksWalking"); assert("rot"@.len() != "blocksWalking"@.len()); }
    assert("rot"@ != "mapChance"@) by { reveal_strlit("rot"); reveal_strlit("mapChance"); assert("rot"@.len() != "mapChance"@.len()); }
    assert("rot"@ != "heatValue"@) by { reveal_strlit("rot"); reveal_strlit("heatValue"); assert("rot"@.len() != "heatValue"@.len()); }
    assert("rot"@ != "rValue"@) by { reveal_strlit("rot"); reveal_strlit("rValue"); assert("rot"@.len() != "rValue"@.len()); }
    assert("rot"@ != "person"@) by { reveal_strlit("rot"); reveal_strlit("person"); assert("rot"@.len() != "person"@.len()); }
    assert("rot"@ != "male"@) by { reveal_strlit("rot"); reveal_strlit("male"); assert("rot"@.len() != "male"@.len()); }
    assert("rot"@ != "deathMarker"@) by { reveal_strlit("rot"); reveal_strlit("deathMarker"); assert("rot"@.len() != "deathMarker"@.len()); }
    assert("rot"@ != "homeMarker"@) by { reveal_strlit("rot"); reveal_strlit("homeMarker"); assert("rot"@.len() != "homeMarker"@.len()); }
    assert("rot"@ != "floor"@) by { reveal_strlit("rot"); reveal_strlit("floor"); assert("rot"@.len() != "floor"@.len()); }
    assert("rot"@ != "partialFloor"@) by { reveal_strlit("rot"); reveal_strlit("partialFloor"); assert("rot"@.len() != "partialFloor"@.len()); }
    assert("rot"@ != "floorHugging"@) by { reveal_strlit("rot"); reveal_strlit("floorHugging"); assert("rot"@.len() != "floorHugging"@.len()); }
    assert("rot"@ != "wallLayer"@) by { reveal_strlit("rot"); reveal_strlit("wallLayer"); assert("rot"@.len() != "wallLayer"@.len()); }
    assert("rot"@ != "frontWall"@) by { reveal_strlit("rot"); reveal_strlit("frontWall"); assert("rot"@.len() != "frontWall"@.len()); }
    assert("rot"@ != "foodValue"@) by { reveal_strlit("rot"); reveal_strlit("foodValue"); assert("rot"@.len() != "foodValue"@.len()); }
    assert("rot"@ != "speedMult"@) by { reveal_strlit("rot"); reveal_strlit("speedMult"); assert("rot"@.len() != "speedMult"@.len()); }
    assert("rot"@ != "containOffset"@) by { reveal_strlit("rot"); reveal_strlit("containOffset"); assert("rot"@.len() != "containOffset"@.len()); }
    assert("rot"@ != "heldOffset"@) by { reveal_strlit("rot"); reveal_strlit("heldOffset"); assert("rot"@.len() != "heldOffset"@.len()); }
    assert("rot"@ != "clothing"@) by { reveal_strlit("rot"); reveal_strlit("clothing"); assert("rot"@.len() != "clothing"@.len()); }
    assert("rot"@ != "clothingOffset"@) by { reveal_strlit("rot"); reveal_strlit("clothingOffset"); assert("rot"@.len() != "clothingOffset"@.len()); }
    assert("rot"@ != "deadlyDistance"@) by { reveal_strlit("rot"); reveal_strlit("deadlyDistance"); assert("rot"@.len() != "deadlyDistance"@.len()); }
    assert("rot"@ != "useDistance"@) by { reveal_strlit("rot"); reveal_strlit("useDistance"); assert("rot"@.len() != "useDistance"@.len()); }
    assert("rot"@ != "sounds"@) by { reveal_strlit("rot"); reveal_strlit("sounds"); assert("rot"@.len() != "sounds"@.len()); }
    assert("rot"@ != "creationSoundInitialOnly"@) by { reveal_strlit("rot"); reveal_strlit("creationSoundInitialOnly"); assert("rot"@.len() != "creationSoundInitialOnly"@.len()); }
    assert("rot"@ != "creationSoundForce"@) by { reveal_strlit("rot"); reveal_strlit("creationSoundForce"); assert("rot"@.len() != "creationSoundForce"@.len()); }
    assert("rot"@ != "numSlots"@) by { reveal_strlit("rot"); reveal_strlit("numSlots"); assert("rot"@.len() != "numSlots"@.len()); }
    assert("rot"@ != "slotSize"@) by { reveal_strlit("rot"); reveal_strlit("slotSize"); assert("rot"@.len() != "slotSize"@.len()); }
    assert("rot"@ != "slotStyle"@) by { reveal_strlit("rot"); reveal_strlit("slotStyle"); assert("rot"@.len() != "slotStyle"@.len()); }
    assert("rot"@ != "slotsLocked"@) by { reveal_strlit("rot"); reveal_strlit("slotsLocked"); assert("rot"@.len() != "slotsLocked"@.len()); }
    assert("rot"@ != "slotsNoSwap"@) by { reveal_strlit("rot"); reveal_strlit("slotsNoSwap"); assert("rot"@.len() != "slotsNoSwap"@.len()); }
    assert("rot"@ != "numSprites"@) by { reveal_strlit("rot"); reveal_strlit("numSprites"); assert("rot"@.len() != "numSprites"@.len()); }
    assert("rot"@ != "headIndex"@) by { reveal_strlit("rot"); reveal_strlit("headIndex"); assert("rot"@.len() != "headIndex"@.len()); }
    assert("rot"@ != "bodyIndex"@) by { reveal_strlit("rot"); reveal_strlit("bodyIndex"); assert("rot"@.len() != "bodyIndex"@.len()); }
    assert("rot"@ != "backFootIndex"@) by { reveal_strlit("rot"); reveal_strlit("backFootIndex"); assert("rot"@.len() != "backFootIndex"@.len()); }
    assert("rot"@ != "frontFootIndex"@) by { reveal_strlit("rot"); reveal_strlit("frontFootIndex"); assert("rot"@.len() != "frontFootIndex"@.len()); }
    assert("rot"@ != "numUses"@) by { reveal_strlit("rot"); reveal_strlit("numUses"); assert("rot"@.len() != "numUses"@.len()); }
    assert("rot"@ != "useVanishIndex"@) by { reveal_strlit("rot"); reveal_strlit("useVanishIndex"); assert("rot"@.len() != "useVanishIndex"@.len()); }
    assert("rot"@ != "useAppearIndex"@) by { reveal_strlit("rot"); reveal_strlit("useAppearIndex"); assert("rot"@.len() != "useAppearIndex"@.len()); }
    assert("rot"@ != "pixHeight"@) by { reveal_strlit("rot"); reveal_strlit("pixHeight"); assert("rot"@.len() != "pixHeight"@.len()); }
    assert("hFlip"@ != "containable"@) by { reveal_strlit("hFlip"); reveal_strlit("containable"); assert("hFlip"@.len() != "containable"@.len()); }
    assert("hFlip"@ != "containSize"@) by { reveal_strlit("hFlip"); reveal_strlit("containSize"); assert("hFlip"@.len() != "containSize"@.len()); }
    assert("hFlip"@ != "permanent"@) by { reveal_strlit("hFlip"); reveal_strlit("permanent"); assert("hFlip"@.len() != "permanent"@.len()); }
    assert("hFlip"@ != "noFlip"@) by { reveal_strlit("hFlip"); reveal_strlit("noFlip"); assert("hFlip"@.len() != "noFlip"@.len()); }
    assert("hFlip"@ != "sideAccess"@) by { reveal_strlit("hFlip"); reveal_strlit("sideAccess"); assert("hFlip"@.len() != "sideAccess"@.len()); }
    assert("hFlip"@ != "heldInHand"@) by { reveal_strlit("hFlip"); reveal_strlit("heldInHand"); assert("hFlip"@.len() != "heldInHand"@.len()); }
    assert("hFlip"@ != "ridingAnimationIndex"@) by { reveal_strlit("hFlip"); reveal_strlit("ridingAnimationIndex"); assert("hFlip"@.len() != "ridingAnimationIndex"@.len()); }
    assert("hFlip"@ != "blocksWalking"@) by { reveal_strlit("hFlip"); reveal_strlit("blocksWalking"); assert("hFlip"@.len() != "blocksWalking"@.len()); }
    assert("hFlip"@ != "mapChance"@) by { reveal_strlit("hFlip"); reveal_strlit("mapChance"); assert("hFlip"@.len() != "mapChance"@.len()); }
    assert("hFlip"@ != "heatValue"@) by { reveal_strlit("hFlip"); reveal_strlit("heatValue"); assert("hFlip"@.len() != "heatValue"@.len()); }
    assert("hFlip"@ != "rValue"@) by { reveal_strlit("hFlip"); reveal_strlit("rValue"); assert("hFlip"@.len() != "rValue"@.len()); }
    assert("hFlip"@ != "person"@) by { reveal_strlit("hFlip"); reveal_strlit("person"); assert("hFlip"@.len() != "person"@.len()); }
    assert("hFlip"@ != "male"@) by { reveal_strlit("hFlip"); reveal_strlit("male"); assert("hFlip"@.len() != "male"@.len()); }
    assert("hFlip"@ != "deathMarker"@) by { reveal_strlit("hFlip"); reveal_strlit("deathMarker"); assert("hFlip"@.len() != "deathMarker"@.len()); }
    assert("hFlip"@ != "homeMarker"@) by { reveal_strlit("hFlip"); reveal_strlit("homeMarker"); assert("hFlip"@.len() != "homeMarker"@.len()); }
    assert("hFlip"@ != "floor"@) by { reveal_strlit("hFlip"); reveal_strlit("floor"); assert("hFlip"@[0] != "floor"@[0]); }
    assert("hFlip"@ != "partialFloor"@) by { reveal_strlit("hFlip"); reveal_strlit("partialFloor"); assert("hFlip"@.len() != "partialFloor"@.len()); }
    assert("hFlip"@ != "floorHugging"@) by { reveal_strlit("hFlip"); reveal_strlit("floorHugging"); assert("hFlip"@.len() != "floorHugging"@.len()); }
    assert("hFlip"@ != "wallLayer"@) by { reveal_strlit("hFlip"); reveal_strlit("wallLayer"); assert("hFlip"@.len() != "wallLayer"@.len()); }
    assert("hFlip"@ != "frontWall"@) by { reveal_strlit("hFlip"); reveal_strlit("frontWall"); assert("hFlip"@.len() != "frontWall"@.len()); }
    assert("hFlip"@ != "foodValue"@) by { reveal_strlit("hFlip"); reveal_strlit("foodValue"); assert("hFlip"@.len() != "foodValue"@.len()); }
    assert("hFlip"@ != "speedMult"@) by { reveal_strlit("hFlip"); reveal_strlit("speedMult"); assert("hFlip"@.len() != "speedMult"@.len()); }
    assert("hFlip"@ != "containOffset"@) by { reveal_strlit("hFlip"); reveal_strlit("containOffset"); assert("hFlip"@.len() != "containOffset"@.len()); }
    assert("hFlip"@ != "heldOffset"@) by { reveal_strlit("hFlip"); reveal_strlit("heldOffset"); assert("hFlip"@.len() != "heldOffset"@.len()); }
    assert("hFlip"@ != "clothing"@) by { reveal_strlit("hFlip"); reveal_strlit("clothing"); assert("hFlip"@.len() != "clothing"@.len()); }
    assert("hFlip"@ != "clothingOffset"@) by { reveal_strlit("hFlip"); reveal_strlit("clothingOffset"); assert("hFlip"@.len() != "clothingOffset"@.len()); }
    assert("hFlip"@ != "deadlyDistance"@) by { reveal_strlit("hFlip"); reveal_strlit("deadlyDistance"); assert("hFlip"@.len() != "deadlyDistance"@.len()); }
    assert("hFlip"@ != "useDistance"@) by { reveal_strlit("hFlip"); reveal_strlit("useDistance"); assert("hFlip"@.len() != "useDistance"@.len()); }
    assert("hFlip"@ != "sounds"@) by { reveal_strlit("hFlip"); reveal_strlit("sounds"); assert("hFlip"@.len() != "sounds"@.len()); }
    assert("hFlip"@ != "creationSoundInitialOnly"@) by { reveal_strlit("hFlip"); reveal_strlit("creationSoundInitialOnly"); assert("hFlip"@.len() != "creationSoundInitialOnly"@.len()); }
    assert("hFlip"@ != "creationSoundForce"@) by { reveal_strlit("hFlip"); reveal_strlit("creationSoundForce"); assert("hFlip"@.len() != "creationSoundForce"@.len()); }
    assert("hFlip"@ != "numSlots"@) by { reveal_strlit("hFlip"); reveal_strlit("numSlots"); assert("hFlip"@.len() != "numSlots"@.len()); }
    assert("hFlip"@ != "slotSize"@) by { reveal_strlit("hFlip"); reveal_strlit("slotSize"); assert("hFlip"@.len() != "slotSize"@.len()); }
    assert("hFlip"@ != "slotStyle"@) by { reveal_strlit("hFlip"); reveal_strlit("slotStyle"); assert("hFlip"@.len() != "slotStyle"@.len()); }
    assert("hFlip"@ != "slotsLocked"@) by { reveal_strlit("hFlip"); reveal_strlit("slotsLocked"); assert("hFlip"@.len() != "slotsLocked"@.len()); }
    assert("hFlip"@ != "slotsNoSwap"@) by { reveal_strlit("hFlip"); reveal_strlit("slotsNoSwap"); assert("hFlip"@.len() != "slotsNoSwap"@.len()); }
    assert("hFlip"@ != "numSprites"@) by { reveal_strlit("hFlip"); reveal_strlit("numSprites"); assert("hFlip"@.len() != "numSprites"@.len()); }
    assert("hFlip"@ != "headIndex"@) by { reveal_strlit("hFlip"); reveal_strlit("headIndex"); assert("hFlip"@.len() != "headIndex"@.len()); }
    assert("hFlip"@ != "bodyIndex"@) by { reveal_strlit("hFlip"); reveal_strlit("bodyIndex"); assert("hFlip"@.len() != "bodyIndex"@.len()); }
    assert("hFlip"@ != "backFootIndex"@) by { reveal_strlit("hFlip"); reveal_strlit("backFootIndex"); assert("hFlip"@.len() != "backFootIndex"@.len()); }
    assert("hFlip"@ != "frontFootIndex"@) by { reveal_strlit("hFlip"); reveal_strlit("frontFootIndex"); assert("hFlip"@.len() != "frontFootIndex"@.len()); }
    assert("hFlip"@ != "numUses"@) by { reveal_strlit("hFlip"); reveal_strlit("numUses"); assert("hFlip"@.len() != "numUses"@.len()); }
    assert("hFlip"@ != "useVanishIndex"@) by { reveal_strlit("hFlip"); reveal_strlit("useVanishIndex"); assert("hFlip"@.len() != "useVanishIndex"@.len()); }
    assert("hFlip"@ != "useAppearIndex"@) by { reveal_strlit("hFlip"); reveal_strlit("useAppearIndex"); assert("hFlip"@.len() != "useAppearIndex"@.len()); }
    assert("hFlip"@ != "pixHeight"@) by { reveal_strlit("hFlip"); reveal_strlit("pixHeight"); assert("hFlip"@.len() != "pixHeight"@.len()); }
    assert("color"@ != "containable"@) by { reveal_strlit("color"); reveal_strlit("containable"); assert("color"@.len() != "containable"@.len()); }
    assert("color"@ != "containSize"@) by { reveal_strlit("color"); reveal_strlit("containSize"); assert("color"@.len() != "containSize"@.len()); }
    assert("color"@ != "permanent"@) by { reveal_strlit("color"); reveal_strlit("permanent"); assert("color"@.len() != "permanent"@.len()); }
    assert("color"@ != "noFlip"@) by { reveal_strlit("color"); reveal_strlit("noFlip"); assert("color"@.len() != "noFlip"@.len()); }
    assert("color"@ != "sideAccess"@) by { reveal_strlit("color"); reveal_strlit("sideAccess"); assert("color"@.len() != "sideAccess"@.len()); }
    assert("color"@ != "heldInHand"@) by { reveal_strlit("color"); reveal_strlit("heldInHand"); assert("color"@.len() != "heldInHand"@.len()); }
    assert("color"@ != "ridingAnimationIndex"@) by { reveal_strlit("color"); reveal_strlit("ridingAnimationIndex"); assert("color"@.len() != "ridingAnimationIndex"@.len()); }
    assert("color"@ != "blocksWalking"@) by { reveal_strlit("color"); reveal_strlit("blocksWalking"); assert("color"@.len() != "blocksWalking"@.len()); }
    assert("color"@ != "mapChance"@) by { reveal_strlit("color"); reveal_strlit("mapChance"); assert("color"@.len() != "mapChance"@.len()); }
    assert("color"@ != "heatValue"@) by { reveal_strlit("color"); reveal_strlit("heatValue"); assert("color"@.len() != "heatValue"@.len()); }
    assert("color"@ != "rValue"@) by { reveal_strlit("color"); reveal_strlit("rValue"); assert("color"@.len() != "rValue"@.len()); }
    assert("color"@ != "person"@) by { reveal_strlit("color"); reveal_strlit("person"); assert("color"@.len() != "person"@.len()); }
    assert("color"@ != "male"@) by { reveal_strlit("color"); reveal_strlit("male"); assert("color"@.len() != "male"@.len()); }
    assert("color"@ != "deathMarker"@) by { reveal_strlit("color"); reveal_strlit("deathMarker"); assert("color"@.len() != "deathMarker"@.len()); }
    assert("color"@ != "homeMarker"@) by { reveal_strlit("color"); reveal_strlit("homeMarker"); assert("color"@.len() != "homeMarker"@.len()); }
    assert("color"@ != "floor"@) by { reveal_strlit("color"); reveal_strlit("floor"); assert("color"@[0] != "floor"@[0]); }
    assert("color"@ != "partialFloor"@) by { reveal_strlit("color"); reveal_strlit("partialFloor"); assert("color"@.len() != "partialFloor"@.len()); }
    assert("color"@ != "floorHugging"@) by { reveal_strlit("color"); reveal_strlit("floorHugging"); assert("color"@.len() != "floorHugging"@.len()); }
    assert("color"@ != "wallLayer"@) by { reveal_strlit("color"); reveal_strlit("wallLayer"); assert("color"@.len() != "wallLayer"@.len()); }
    assert("color"@ != "frontWall"@) by { reveal_strlit("color"); reveal_strlit("frontWall"); assert("color"@.len() != "frontWall"@.len()); }
    assert("color"@ != "foodValue"@) by { reveal_strlit("color"); reveal_strlit("foodValue"); assert("color"@.len() != "foodValue"@.len()); }
    assert("color"@ != "speedMult"@) by { reveal_strlit("color"); reveal_strlit("speedMult"); assert("color"@.len() != "speedMult"@.len()); }
    assert("color"@ != "containOffset"@) by { reveal_strlit("color"); reveal_strlit("containOffset"); assert("color"@.len() != "containOffset"@.len()); }
    assert("color"@ != "heldOffset"@) by { reveal_strlit("color"); reveal_strlit("heldOffset"); assert("color"@.len() != "heldOffset"@.len()); }
    assert("color"@ != "clothing"@) by { reveal_strlit("color"); reveal_strlit("clothing"); assert("color"@.len() != "clothing"@.len()); }
    assert("color"@ != "clothingOffset"@) by { reveal_strlit("color"); reveal_strlit("clothingOffset"); assert("color"@.len() != "clothingOffset"@.len()); }
    assert("color"@ != "deadlyDistance"@) by { reveal_strlit("color"); reveal_strlit("deadlyDistance"); assert("color"@.len() != "deadlyDistance"@.len()); }
    assert("color"@ != "useDistance"@) by { reveal_strlit("color"); reveal_strlit("useDistance"); assert("color"@.len() != "useDistance"@.len()); }
    assert("color"@ != "sounds"@) by { reveal_strlit("color"); reveal_strlit("sounds"); assert("color"@.len() != "sounds"@.len()); }
    assert("color"@ != "creationSoundInitialOnly"@) by { reveal_strlit("color"); reveal_strlit("creationSoundInitialOnly"); assert("color"@.len() != "creationSoundInitialOnly"@.len()); }
    assert("color"@ != "creationSoundForce"@) by { reveal_strlit("color"); reveal_strlit("creationSoundForce"); assert("color"@.len() != "creationSoundForce"@.len()); }
    assert("color"@ != "numSlots"@) by { reveal_strlit("color"); reveal_strlit("numSlots"); assert("color"@.len() != "numSlots"@.len()); }
    assert("color"@ != "slotSize"@) by { reveal_strlit("color"); reveal_strlit("slotSize"); assert("color"@.len() != "slotSize"@.len()); }
    assert("color"@ != "slotStyle"@) by { reveal_strlit("color"); reveal_strlit("slotStyle"); assert("color"@.len() != "slotStyle"@.len()); }
    assert("color"@ != "slotsLocked"@) by { reveal_strlit("color"); reveal_strlit("slotsLocked"); assert("color"@.len() != "slotsLocked"@.len()); }
    assert("color"@ != "slotsNoSwap"@) by { reveal_strlit("color"); reveal_strlit("slotsNoSwap"); assert("color"@.len() != "slotsNoSwap"@.len()); }
    assert("color"@ != "numSprites"@) by { reveal_strlit("color"); reveal_strlit("numSprites"); assert("color"@.len() != "numSprites"@.len()); }
    assert("color"@ != "headIndex"@) by { reveal_strlit("color"); reveal_strlit("headIndex"); assert("color"@.len() != "headIndex"@.len()); }
    assert("color"@ != "bodyIndex"@) by { reveal_strlit("color"); reveal_strlit("bodyIndex"); assert("color"@.len() != "bodyIndex"@.len()); }
    assert("color"@ != "backFootIndex"@) by { reveal_strlit("color"); reveal_strlit("backFootIndex"); assert("color"@.len() != "backFootIndex"@.len()); }
    assert("color"@ != "frontFootIndex"@) by { reveal_strlit("color"); reveal_strlit("frontFootIndex"); assert("color"@.len() != "frontFootIndex"@.len()); }
    assert("color"@ != "numUses"@) by { reveal_strlit("color"); reveal_strlit("numUses"); assert("color"@.len() != "numUses"@.len()); }
    assert("color"@ != "useVanishIndex"@) by { reveal_strlit("color"); reveal_strlit("useVanishIndex"); assert("color"@.len() != "useVanishIndex"@.len()); }
    assert("color"@ != "useAppearIndex"@) by { reveal_strlit("color"); reveal_strlit("useAppearIndex"); assert("color"@.len() != "useAppearIndex"@.len()); }
    assert("color"@ != "pixHeight"@) by { reveal_strlit("color"); reveal_strlit("pixHeight"); assert("color"@.len() != "pixHeight"@.len()); }
    assert("ageRange"@ != "containable"@) by { reveal_strlit("ageRange"); reveal_strlit("containable"); assert("ageRange"@.len() != "containable"@.len()); }
    assert("ageRange"@ != "containSize"@) by { reveal_strlit("ageRange"); reveal_strlit("containSize"); assert("ageRange"@.len() != "containSize"@.len()); }
    assert("ageRange"@ != "permanent"@) by { reveal_strlit("ageRange"); reveal_strlit("permanent"); assert("ageRange"@.len() != "permanent"@.len()); }
    assert("ageRange"@ != "noFlip"@) by { reveal_strlit("ageRange"); reveal_strlit("noFlip"); assert("ageRange"@.len() != "noFlip"@.len()); }
    assert("ageRange"@ != "sideAccess"@) by { reveal_strlit("ageRange"); reveal_strlit("sideAccess"); assert("ageRange"@.len() != "sideAccess"@.len()); }
    assert("ageRange"@ != "heldInHand"@) by { reveal_strlit("ageRange"); reveal_strlit("heldInHand"); assert("ageRange"@.len() != "heldInHand"@.len()); }
    assert("ageRange"@ != "ridingAnimationIndex"@) by { reveal_strlit("ageRange"); reveal_strlit("ridingAnimationIndex"); assert("ageRange"@.len() != "ridingAnimationIndex"@.len()); }
    assert("ageRange"@ != "blocksWalking"@) by { reveal_strlit("ageRange"); reveal_strlit("blocksWalking"); assert("ageRange"@.len() != "blocksWalking"@.len()); }
    assert("ageRange"@ != "mapChance"@) by { reveal_strlit("ageRange"); reveal_strlit("mapChance"); assert("ageRange"@.len() != "mapChance"@.len()); }
    assert("ageRange"@ != "heatValue"@) by { reveal_strlit("ageRange"); reveal_strlit("heatValue"); assert("ageRange"@.len() != "heatValue"@.len()); }
    assert("ageRange"@ != "rValue"@) by { reveal_strlit("ageRange"); reveal_strlit("rValue"); assert("ageRange"@.len() != "rValue"@.len()); }
    assert("ageRange"@ != "person"@) by { reveal_strlit("ageRange"); reveal_strlit("person"); assert("ageRange"@.len() != "person"@.len()); }
    assert("ageRange"@ != "male"@) by { reveal_strlit("ageRange"); reveal_strlit("male"); assert("ageRange"@.len() != "male"@.len()); }
    assert("ageRange"@ != "deathMarker"@) by { reveal_strlit("ageRange"); reveal_strlit("deathMarker"); assert("ageRange"@.len() != "deathMarker"@.len()); }
    assert("ageRange"@ != "homeMarker"@) by { reveal_strlit("ageRange"); reveal_strlit("homeMarker"); assert("ageRange"@.len() != "homeMarker"@.len()); }
    assert("ageRange"@ != "floor"@) by { reveal_strlit("ageRange"); reveal_strlit("floor"); assert("ageRange"@.len() != "floor"@.len()); }
    assert("ageRange"@ != "partialFloor"@) by { reveal_strlit("ageRange"); reveal_strlit("partialFloor"); assert("ageRange"@.len() != "partialFloor"@.len()); }
    assert("ageRange"@ != "floorHugging"@) by { reveal_strlit("ageRange"); reveal_strlit("floorHugging"); assert("ageRange"@.len() != "floorHugging"@.len()); }
    assert("ageRange"@ != "wallLayer"@) by { reveal_strlit("ageRange"); reveal_strlit("wallLayer"); assert("ageRange"@.len() != "wallLayer"@.len()); }
    assert("ageRange"@ != "frontWall"@) by { reveal_strlit("ageRange"); reveal_strlit("frontWall"); assert("ageRange"@.len() != "frontWall"@.len()); }
    assert("ageRange"@ != "foodValue"@) by { reveal_strlit("ageRange"); reveal_strlit("foodValue"); assert("ageRange"@.len() != "foodValue"@.len()); }
    assert("ageRange"@ != "speedMult"@) by { reveal_strlit("ageRange"); reveal_strlit("speedMult"); assert("ageRange"@.len() != "speedMult"@.len()); }
    assert("ageRange"@ != "containOffset"@) by { reveal_strlit("ageRange"); reveal_strlit("containOffset"); assert("ageRange"@.len() != "containOffset"@.len()); }
    assert("ageRange"@ != "heldOffset"@) by { reveal_strlit("ageRange"); reveal_strlit("heldOffset"); assert("ageRange"@.len() != "heldOffset"@.len()); }
    assert("ageRange"@ != "clothing"@) by { reveal_strlit("ageRange"); reveal_strlit("clothing"); assert("ageRange"@[0] != "clothing"@[0]); }
    assert("ageRange"@ != "clothingOffset"@) by { reveal_strlit("ageRange"); reveal_strlit("clothingOffset"); assert("ageRange"@.len() != "clothingOffset"@.len()); }
    assert("ageRange"@ != "deadlyDistance"@) by { reveal_strlit("ageRange"); reveal_strlit("deadlyDistance"); assert("ageRange"@.len() != "deadlyDistance"@.len()); }
    assert("ageRange"@ != "useDistance"@) by { reveal_strlit("ageRange"); reveal_strlit("useDistance"); assert("ageRange"@.len() != "useDistance"@.len()); }
    assert("ageRange"@ != "sounds"@) by { reveal_strlit("ageRange"); reveal_strlit("sounds"); assert("ageRange"@.len() != "sounds"@.len()); }
    assert("ageRange"@ != "creationSoundInitialOnly"@) by { reveal_strlit("ageRange"); reveal_strlit("creationSoundInitialOnly"); assert("ageRange"@.len() != "creationSoundInitialOnly"@.len()); }
    assert("ageRange"@ != "creationSoundForce"@) by { reveal_strlit("ageRange"); reveal_strlit("creationSoundForce"); assert("ageRange"@.len() != "creationSoundForce"@.len()); }
    assert("ageRange"@ != "numSlots"@) by { reveal_strlit("ageRange"); reveal_strlit("numSlots"); assert("ageRange"@[0] != "numSlots"@[0]); }
    assert("ageRange"@ != "slotSize"@) by { reveal_strlit("ageRange"); reveal_strlit("slotSize"); assert("ageRange"@[0] != "slotSize"@[0]); }
    assert("ageRange"@ != "slotStyle"@) by { reveal_strlit("ageRange"); reveal_strlit("slotStyle"); assert("ageRange"@.len() != "slotStyle"@.len()); }
    assert("ageRange"@ != "slotsLocked"@) by { reveal_strlit("ageRange"); reveal_strlit("slotsLocked"); assert("ageRange"@.len() != "slotsLocked"@.len()); }
    assert("ageRange"@ != "slotsNoSwap"@) by { reveal_strlit("ageRange"); reveal_strlit("slotsNoSwap"); assert("ageRange"@.len() != "slotsNoSwap"@.len()); }
    assert("ageRange"@ != "numSprites"@) by { reveal_strlit("ageRange"); reveal_strlit("numSprites"); assert("ageRange"@.len() != "numSprites"@.len()); }
    assert("ageRange"@ != "headIndex"@) by { reveal_strlit("ageRange"); reveal_strlit("headIndex"); assert("ageRange"@.len() != "headIndex"@.len()); }
    assert("ageRange"@ != "bodyIndex"@) by { reveal_strlit("ageRange"); reveal_strlit("bodyIndex"); assert("ageRange"@.len() != "bodyIndex"@.len()); }
    assert("ageRange"@ != "backFootIndex"@) by { reveal_strlit("ageRange"); reveal_strlit("backFootIndex"); assert("ageRange"@.len() != "backFootIndex"@.len()); }
    assert("ageRange"@ != "frontFootIndex"@) by { reveal_strlit("ageRange"); reveal_strlit("frontFootIndex"); assert("ageRange"@.len() != "frontFootIndex"@.len()); }
    assert("ageRange"@ != "numUses"@) by { reveal_strlit("ageRange"); reveal_strlit("numUses"); assert("ageRange"@.len() != "numUses"@.len()); }
    assert("ageRange"@ != "useVanishIndex"@) by { reveal_strlit("ageRange"); reveal_strlit("useVanishIndex"); assert("ageRange"@.len() != "useVanishIndex"@.len()); }
    assert("ageRange"@ != "useAppearIndex"@) by { reveal_strlit("ageRange"); reveal_strlit("useAppearIndex"); assert("ageRange"@.len() != "useAppearIndex"@.len()); }
    assert("ageRange"@ != "pixHeight"@) by { reveal_strlit("ageRange"); reveal_strlit("pixHeight"); assert("ageRange"@.len() != "pixHeight"@.len()); }
    assert("parent"@ != "containable"@) by { reveal_strlit("parent"); reveal_strlit("containable"); assert("parent"@.len() != "containable"@.len()); }
    assert("parent"@ != "containSize"@) by { reveal_strlit("parent"); reveal_strlit("containSize"); assert("parent"@.len() != "containSize"@.len()); }
    assert("parent"@ != "permanent"@) by { reveal_strlit("parent"); reveal_strlit("permanent"); assert("parent"@.len() != "permanent"@.len()); }
    assert("parent"@ != "noFlip"@) by { reveal_strlit("parent"); reveal_strlit("noFlip"); assert("parent"@[0] != "noFlip"@[0]); }
    assert("parent"@ != "sideAccess"@) by { reveal_strlit("parent"); reveal_strlit("sideAccess"); assert("parent"@.len() != "sideAccess"@.len()); }
    assert("parent"@ != "heldInHand"@) by { reveal_strlit("parent"); reveal_strlit("heldInHand"); assert("parent"@.len() != "heldInHand"@.len()); }
    assert("parent"@ != "ridingAnimationIndex"@) by { reveal_strlit("parent"); reveal_strlit("ridingAnimationIndex"); assert("parent"@.len() != "ridingAnimationIndex"@.len()); }
    assert("parent"@ != "blocksWalking"@) by { reveal_strlit("parent"); reveal_strlit("blocksWalking"); assert("parent"@.len() != "blocksWalking"@.len()); }
    assert("parent"@ != "mapChance"@) by { reveal_strlit("parent"); reveal_strlit("mapChance"); assert("parent"@.len() != "mapChance"@.len()); }
    assert("parent"@ != "heatValue"@) by { reveal_strlit("parent"); reveal_strlit("heatValue"); assert("parent"@.len() != "heatValue"@.len()); }
    assert("parent"@ != "rValue"@) by { reveal_strlit("parent"); reveal_strlit("rValue"); assert("parent"@[0] != "rValue"@[0]); }
    assert("parent"@ != "person"@) by { reveal_strlit("parent"); reveal_strlit("person"); assert("parent"@[1] != "person"@[1]); }
    assert("parent"@ != "male"@) by { reveal_strlit("parent"); reveal_strlit("male"); assert("parent"@.len() != "male"@.len()); }
    assert("parent"@ != "deathMarker"@) by { reveal_strlit("parent"); reveal_strlit("deathMarker"); assert("parent"@.len() != "deathMarker"@.len()); }
    assert("parent"@ != "homeMarker"@) by { reveal_strlit("parent"); reveal_strlit("homeMarker"); assert("parent"@.len() != "homeMarker"@.len()); }
    assert("parent"@ != "floor"@) by { reveal_strlit("parent"); reveal_strlit("floor"); assert("parent"@.len() != "floor"@.len()); }
    assert("parent"@ != "partialFloor"@) by { reveal_strlit("parent"); reveal_strlit("partialFloor"); assert("parent"@.len() != "partialFloor"@.len()); }
    assert("parent"@ != "floorHugging"@) by { reveal_strlit("parent"); reveal_strlit("floorHugging"); assert("parent"@.len() != "floorHugging"@.len()); }
    assert("parent"@ != "wallLayer"@) by { reveal_strlit("parent"); reveal_strlit("wallLayer"); assert("parent"@.len() != "wallLayer"@.len()); }
    assert("parent"@ != "frontWall"@) by { reveal_strlit("parent"); reveal_strlit("frontWall"); assert("parent"@.len() != "frontWall"@.len()); }
    assert("parent"@ != "foodValue"@) by { reveal_strlit("parent"); reveal_strlit("foodValue"); assert("parent"@.len() != "foodValue"@.len()); }
    assert("parent"@ != "speedMult"@) by { reveal_strlit("parent"); reveal_strlit("speedMult"); assert("parent"@.len() != "speedMult"@.len()); }
    assert("parent"@ != "containOffset"@) by { reveal_strlit("parent"); reveal_strlit("containOffset"); assert("parent"@.len() != "containOffset"@.len()); }
    assert("parent"@ != "heldOffset"@) by { reveal_strlit("parent"); reveal_strlit("heldOffset"); assert("parent"@.len() != "heldOffset"@.len()); }
    assert("parent"@ != "clothing"@) by { reveal_strlit("parent"); reveal_strlit("clothing"); assert("parent"@.len() != "clothing"@.len()); }
    assert("parent"@ != "clothingOffset"@) by { reveal_strlit("parent"); reveal_strlit("clothingOffset"); assert("parent"@.len() != "clothingOffset"@.len()); }
    assert("parent"@ != "deadlyDistance"@) by { reveal_strlit("parent"); reveal_strlit("deadlyDistance"); assert("parent"@.len() != "deadlyDistance"@.len()); }
    assert("parent"@ != "useDistance"@) by { reveal_strlit("parent"); reveal_strlit("useDistance"); assert("parent"@.len() != "useDistance"@.len()); }
    assert("parent"@ != "sounds"@) by { reveal_strlit("parent"); reveal_strlit("sounds"); assert("parent"@[0] != "sounds"@[0]); }
    assert("parent"@ != "creationSoundInitialOnly"@) by { reveal_strlit("parent"); reveal_strlit("creationSoundInitialOnly"); assert("parent"@.len() != "creationSoundInitialOnly"@.len()); }
    assert("parent"@ != "creationSoundForce"@) by { reveal_strlit("parent"); reveal_strlit("creationSoundForce"); assert("parent"@.len() != "creationSoundForce"@.len()); }
    assert("parent"@ != "numSlots"@) by { reveal_strlit("parent"); reveal_strlit("numSlots"); assert("parent"@.len() != "numSlots"@.len()); }
    assert("parent"@ != "slotSize"@) by { reveal_strlit("parent"); reveal_strlit("slotSize"); assert("parent"@.len() != "slotSize"@.len()); }
    assert("parent"@ != "slotStyle"@) by { reveal_strlit("parent"); reveal_strlit("slotStyle"); assert("parent"@.len() != "slotStyle"@.len()); }
    assert("parent"@ != "slotsLocked"@) by { reveal_strlit("parent"); reveal_strlit("slotsLocked"); assert("parent"@.len() != "slotsLocked"@.len()); }
    assert("parent"@ != "slotsNoSwap"@) by { reveal_strlit("parent"); reveal_strlit("slotsNoSwap"); assert("parent"@.len() != "slotsNoSwap"@.len()); }
    assert("parent"@ != "numSprites"@) by { reveal_strlit("parent"); reveal_strlit("numSprites"); assert("parent"@.len() != "numSprites"@.len()); }
    assert("parent"@ != "headIndex"@) by { reveal_strlit("parent"); reveal_strlit("headIndex"); assert("parent"@.len() != "headIndex"@.len()); }
    assert("parent"@ != "bodyIndex"@) by { reveal_strlit("parent"); reveal_strlit("bodyIndex"); assert("parent"@.len() != "bodyIndex"@.len()); }
    assert("parent"@ != "backFootIndex"@) by { reveal_strlit("parent"); reveal_strlit("backFootIndex"); assert("parent"@.len() != "backFootIndex"@.len()); }
    assert("parent"@ != "frontFootIndex"@) by { reveal_strlit("parent"); reveal_strlit("frontFootIndex"); assert("parent"@.len() != "frontFootIndex"@.len()); }
    assert("parent"@ != "numUses"@) by { reveal_strlit("parent"); reveal_strlit("numUses"); assert("parent"@.len() != "numUses"@.len()); }
    assert("parent"@ != "useVanishIndex"@) by { reveal_strlit("parent"); reveal_strlit("useVanishIndex"); assert("parent"@.len() != "useVanishIndex"@.len()); }
    assert("parent"@ != "useAppearIndex"@) by { reveal_strlit("parent"); reveal_strlit("useAppearIndex"); assert("parent"@.len() != "useAppearIndex"@.len()); }
    assert("parent"@ != "pixHeight"@) by { reveal_strlit("parent"); reveal_strlit("pixHeight"); assert("parent"@.len() != "pixHeight"@.len()); }
    assert("invisHolding"@ != "containable"@) by { reveal_strlit("invisHolding"); reveal_strlit("containable"); assert("invisHolding"@.len() != "containable"@.len()); }
    assert("invisHolding"@ != "containSize"@) by { reveal_strlit("invisHolding"); reveal_strlit("containSize"); assert("invisHolding"@.len() != "containSize"@.len()); }
    assert("invisHolding"@ != "permanent"@) by { reveal_strlit("invisHolding"); reveal_strlit("permanent"); assert("invisHolding"@.len() != "permanent"@.len()); }
    assert("invisHolding"@ != "noFlip"@) by { reveal_strlit("invisHolding"); reveal_strlit("noFlip"); assert("invisHolding"@.len() != "noFlip"@.len()); }
    assert("invisHolding"@ != "sideAccess"@) by { reveal_strlit("invisHolding"); reveal_strlit("sideAccess"); assert("invisHolding"@.len() != "sideAccess"@.len()); }
    assert("invisHolding"@ != "heldInHand"@) by { reveal_strlit("invisHolding"); reveal_strlit("heldInHand"); assert("invisHolding"@.len() != "heldInHand"@.len()); }
    assert("invisHolding"@ != "ridingAnimationIndex"@) by { reveal_strlit("invisHolding"); reveal_strlit("ridingAnimationIndex"); assert("invisHolding"@.len() != "ridingAnimationIndex"@.len()); }
    assert("invisHolding"@ != "blocksWalking"@) by { reveal_strlit("invisHolding"); reveal_strlit("blocksWalking"); assert("invisHolding"@.len() != "blocksWalking"@.len()); }
    assert("invisHolding"@ != "mapChance"@) by { reveal_strlit("invisHolding"); reveal_strlit("mapChance"); assert("invisHolding"@.len() != "mapChance"@.len()); }
    assert("invisHolding"@ != "heatValue"@) by { reveal_strlit("invisHolding"); reveal_strlit("heatValue"); assert("invisHolding"@.len() != "heatValue"@.len()); }
    assert("invisHolding"@ != "rValue"@) by { reveal_strlit("invisHolding"); reveal_strlit("rValue"); assert("invisHolding"@.len() != "rValue"@.len()); }
    assert("invisHolding"@ != "person"@) by { reveal_strlit("invisHolding"); reveal_strlit("person"); assert("invisHolding"@.len() != "person"@.len()); }
    assert("invisHolding"@ != "male"@) by { reveal_strlit("invisHolding"); reveal_strlit("male"); assert("invisHolding"@.len() != "male"@.len()); }
    assert("invisHolding"@ != "deathMarker"@) by { reveal_strlit("invisHolding"); reveal_strlit("deathMarker"); assert("invisHolding"@.len() != "deathMarker"@.len()); }
    assert("invisHolding"@ != "homeMarker"@) by { reveal_strlit("invisHolding"); reveal_strlit("homeMarker"); assert("invisHolding"@.len() != "homeMarker"@.len()); }
    assert("invisHolding"@ != "floor"@) by { reveal_strlit("invisHolding"); reveal_strlit("floor"); assert("invisHolding"@.len() != "floor"@.len()); }
    assert("invisHolding"@ != "partialFloor"@) by { reveal_strlit("invisHolding"); reveal_strlit("partialFloor"); assert("invisHolding"@[0] != "partialFloor"@[0]); }
    assert("invisHolding"@ != "floorHugging"@) by { reveal_strlit("invisHolding"); reveal_strlit("floorHugging"); assert("invisHolding"@[0] != "floorHugging"@[0]); }
    assert("invisHolding"@ != "wallLayer"@) by { reveal_strlit("invisHolding"); reveal_strlit("wallLayer"); assert("invisHolding"@.len() != "wallLayer"@.len()); }
    assert("invisHolding"@ != "frontWall"@) by { reveal_strlit("invisHolding"); reveal_strlit("frontWall"); assert("invisHolding"@.len() != "frontWall"@.len()); }
    assert("invisHolding"@ != "foodValue"@) by { reveal_strlit("invisHolding"); reveal_strlit("foodValue"); assert("invisHolding"@.len() != "foodValue"@.len()); }
    assert("invisHolding"@ != "speedMult"@) by { reveal_strlit("invisHolding"); reveal_strlit("speedMult"); assert("invisHolding"@.len() != "speedMult"@.len()); }
    assert("invisHolding"@ != "containOffset"@) by { reveal_strlit("invisHolding"); reveal_strlit("containOffset"); assert("invisHolding"@.len() != "containOffset"@.len()); }
    assert("invisHolding"@ != "heldOffset"@) by { reveal_strlit("invisHolding"); reveal_strlit("heldOffset"); assert("invisHolding"@.len() != "heldOffset"@.len()); }
    assert("invisHolding"@ != "clothing"@) by { reveal_strlit("invisHolding"); reveal_strlit("clothing"); assert("invisHolding"@.len() != "clothing"@.len()); }
    assert("invisHolding"@ != "clothingOffset"@) by { reveal_strlit("invisHolding"); reveal_strlit("clothingOffset"); assert("invisHolding"@.len() != "clothingOffset"@.len()); }
    assert("invisHolding"@ != "deadlyDistance"@) by { reveal_strlit("invisHolding"); reveal_strlit("deadlyDistance"); assert("invisHolding"@.len() != "deadlyDistance"@.len()); }
    assert("invisHolding"@ != "useDistance"@) by { reveal_strlit("invisHolding"); reveal_strlit("useDistance"); assert("invisHolding"@.len() != "useDistance"@.len()); }
    assert("invisHolding"@ != "sounds"@) by { reveal_strlit("invisHolding"); reveal_strlit("sounds"); assert("invisHolding"@.len() != "sounds"@.len()); }
    assert("invisHolding"@ != "creationSoundInitialOnly"@) by { reveal_strlit("invisHolding"); reveal_strlit("creationSoundInitialOnly"); assert("invisHolding"@.len() != "creationSoundInitialOnly"@.len()); }
    assert("invisHolding"@ != "creationSoundForce"@) by { reveal_strlit("invisHolding"); reveal_strlit("creationSoundForce"); assert("invisHolding"@.len() != "creationSoundForce"@.len()); }
    assert("invisHolding"@ != "numSlots"@) by { reveal_strlit("invisHolding"); reveal_strlit("numSlots"); assert("invisHolding"@.len() != "numSlots"@.len()); }
    assert("invisHolding"@ != "slotSize"@) by { reveal_strlit("invisHolding"); reveal_strlit("slotSize"); assert("invisHolding"@.len() != "slotSize"@.len()); }
    assert("invisHolding"@ != "slotStyle"@) by { reveal_strlit("invisHolding"); reveal_strlit("slotStyle"); assert("invisHolding"@.len() != "slotStyle"@.len()); }
    assert("invisHolding"@ != "slotsLocked"@) by { reveal_strlit("invisHolding"); reveal_strlit("slotsLocked"); assert("invisHolding"@.len() != "slotsLocked"@.len()); }
    assert("invisHolding"@ != "slotsNoSwap"@) by { reveal_strlit("invisHolding"); reveal_strlit("slotsNoSwap"); assert("invisHolding"@.len() != "slotsNoSwap"@.len()); }
    assert("invisHolding"@ != "numSprites"@) by { reveal_strlit("invisHolding"); reveal_strlit("numSprites"); assert("invisHolding"@.len() != "numSprites"@.len()); }
    assert("invisHolding"@ != "headIndex"@) by { reveal_strlit("invisHolding"); reveal_strlit("headIndex"); assert("invisHolding"@.len() != "headIndex"@.len()); }
    assert("invisHolding"@ != "bodyIndex"@) by { reveal_strlit("invisHolding"); reveal_strlit("bodyIndex"); assert("invisHolding"@.len() != "bodyIndex"@.len()); }
    assert("invisHolding"@ != "backFootIndex"@) by { reveal_strlit("invisHolding"); reveal_strlit("backFootIndex"); assert("invisHolding"@.len() != "backFootIndex"@.len()); }
    assert("invisHolding"@ != "frontFootIndex"@) by { reveal_strlit("invisHolding"); reveal_strlit("frontFootIndex"); assert("invisHolding"@.len() != "frontFootIndex"@.len()); }
    assert("invisHolding"@ != "numUses"@) by { reveal_strlit("invisHolding"); reveal_strlit("numUses"); assert("invisHolding"@.len() != "numUses"@.len()); }
    assert("invisHolding"@ != "useVanishIndex"@) by { reveal_strlit("invisHolding"); reveal_strlit("useVanishIndex"); assert("invisHolding"@.len() != "useVanishIndex"@.len()); }
    assert("invisHolding"@ != "useAppearIndex"@) by { reveal_strlit("invisHolding"); reveal_strlit("useAppearIndex"); assert("invisHolding"@.len() != "useAppearIndex"@.len()); }
    assert("invisHolding"@ != "pixHeight"@) by { reveal_strlit("invisHolding"); reveal_strlit("pixHeight"); assert("invisHolding"@.len() != "pixHeight"@.len()); }
    assert("invisCont"@ != "containable"@) by { reveal_strlit("invisCont"); reveal_strlit("containable"); assert("invisCont"@.len() != "containable"@.len()); }
    assert("invisCont"@ != "containSize"@) by { reveal_strlit("invisCont"); reveal_strlit("containSize"); assert("invisCont"@.len() != "containSize"@.len()); }
    assert("invisCont"@ != "permanent"@) by { reveal_strlit("invisCont"); reveal_strlit("permanent"); assert("invisCont"@[0] != "permanent"@[0]); }
    assert("invisCont"@ != "noFlip"@) by { reveal_strlit("invisCont"); reveal_strlit("noFlip"); assert("invisCont"@.len() != "noFlip"@.len()); }
    assert("invisCont"@ != "sideAccess"@) by { reveal_strlit("invisCont"); reveal_strlit("sideAccess"); assert("invisCont"@.len() != "sideAccess"@.len()); }
    assert("invisCont"@ != "heldInHand"@) by { reveal_strlit("invisCont"); reveal_strlit("heldInHand"); assert("invisCont"@.len() != "heldInHand"@.len()); }
    assert("invisCont"@ != "ridingAnimationIndex"@) by { reveal_strlit("invisCont"); reveal_strlit("ridingAnimationIndex"); assert("invisCont"@.len() != "ridingAnimationIndex"@.len()); }
    assert("invisCont"@ != "blocksWalking"@) by { reveal_strlit("invisCont"); reveal_strlit("blocksWalking"); assert("invisCont"@.len() != "blocksWalking"@.len()); }
    assert("invisCont"@ != "mapChance"@) by { reveal_strlit("invisCont"); reveal_strlit("mapChance"); assert("invisCont"@[0] != "mapChance"@[0]); }
    assert("invisCont"@ != "heatValue"@) by { reveal_strlit("invisCont"); reveal_strlit("heatValue"); assert("invisCont"@[0] != "heatValue"@[0]); }
    assert("invisCont"@ != "rValue"@) by { reveal_strlit("invisCont"); reveal_strlit("rValue"); assert("invisCont"@.len() != "rValue"@.len()); }
    assert("invisCont"@ != "person"@) by { reveal_strlit("invisCont"); reveal_strlit("person"); assert("invisCont"@.len() != "person"@.len()); }
    assert("invisCont"@ != "male"@) by { reveal_strlit("invisCont"); reveal_strlit("male"); assert("invisCont"@.len() != "male"@.len()); }
    assert("invisCont"@ != "deathMarker"@) by { reveal_strlit("invisCont"); reveal_strlit("deathMarker"); assert("invisCont"@.len() != "deathMarker"@.len()); }
    assert("invisCont"@ != "homeMarker"@) by { reveal_strlit("invisCont"); reveal_strlit("homeMarker"); assert("invisCont"@.len() != "homeMarker"@.len()); }
    assert("invisCont"@ != "floor"@) by { reveal_strlit("invisCont"); reveal_strlit("floor"); assert("invisCont"@.len() != "floor"@.len()); }
    assert("invisCont"@ != "partialFloor"@) by { reveal_strlit("invisCont"); reveal_strlit("partialFloor"); assert("invisCont"@.len() != "partialFloor"@.len()); }
    assert("invisCont"@ != "floorHugging"@) by { reveal_strlit("invisCont"); reveal_strlit("floorHugging"); assert("invisCont"@.len() != "floorHugging"@.len()); }
    assert("invisCont"@ != "wallLayer"@) by { reveal_strlit("invisCont"); reveal_strlit("wallLayer"); assert("invisCont"@[0] != "wallLayer"@[0]); }
    assert("invisCont"@ != "frontWall"@) by { reveal_strlit("invisCont"); reveal_strlit("frontWall"); assert("invisCont"@[0] != "frontWall"@[0]); }
    assert("invisCont"@ != "foodValue"@) by { reveal_strlit("invisCont"); reveal_strlit("foodValue"); assert("invisCont"@[0] != "foodValue"@[0]); }
    assert("invisCont"@ != "speedMult"@) by { reveal_strlit("invisCont"); reveal_strlit("speedMult"); assert("invisCont"@[0] != "speedMult"@[0]); }
    assert("invisCont"@ != "containOffset"@) by { reveal_strlit("invisCont"); reveal_strlit("containOffset"); assert("invisCont"@.len() != "containOffset"@.len()); }
    assert("invisCont"@ != "heldOffset"@) by { reveal_strlit("invisCont"); reveal_strlit("heldOffset"); assert("invisCont"@.len() != "heldOffset"@.len()); }
    assert("invisCont"@ != "clothing"@) by { reveal_strlit("invisCont"); reveal_strlit("clothing"); assert("invisCont"@.len() != "clothing"@.len()); }
    assert("invisCont"@ != "clothingOffset"@) by { reveal_strlit("invisCont"); reveal_strlit("clothingOffset"); assert("invisCont"@.len() != "clothingOffset"@.len()); }
    assert("invisCont"@ != "deadlyDistance"@) by { reveal_strlit("invisCont"); reveal_strlit("deadlyDistance"); assert("invisCont"@.len() != "deadlyDistance"@.len()); }
    assert("invisCont"@ != "useDistance"@) by { reveal_strlit("invisCont"); reveal_strlit("useDistance"); assert("invisCont"@.len() != "useDistance"@.len()); }
    assert("invisCont"@ != "sounds"@) by { reveal_strlit("invisCont"); reveal_strlit("sounds"); assert("invisCont"@.len() != "sounds"@.len()); }
    assert("invisCont"@ != "creationSoundInitialOnly"@) by { reveal_strlit("invisCont"); reveal_strlit("creationSoundInitialOnly"); assert("invisCont"@.len() != "creationSoundInitialOnly"@.len()); }
    assert("invisCont"@ != "creationSoundForce"@) by { reveal_strlit("invisCont"); reveal_strlit("creationSoundForce"); assert("invisCont"@.len() != "creationSoundForce"@.len()); }
    assert("invisCont"@ != "numSlots"@) by { reveal_strlit("invisCont"); reveal_strlit("numSlots"); assert("invisCont"@.len() != "numSlots"@.len()); }
    assert("invisCont"@ != "slotSize"@) by { reveal_strlit("invisCont"); reveal_strlit("slotSize"); assert("invisCont"@.len() != "slotSize"@.len()); }
    assert("invisCont"@ != "slotStyle"@) by { reveal_strlit("invisCont"); reveal_strlit("slotStyle"); assert("invisCont"@[0] != "slotStyle"@[0]); }
    assert("invisCont"@ != "slotsLocked"@) by { reveal_strlit("invisCont"); reveal_strlit("slotsLocked"); assert("invisCont"@.len() != "slotsLocked"@.len()); }
    assert("invisCont"@ != "slotsNoSwap"@) by { reveal_strlit("invisCont"); reveal_strlit("slotsNoSwap"); assert("invisCont"@.len() != "slotsNoSwap"@.len()); }
    assert("invisCont"@ != "numSprites"@) by { reveal_strlit("invisCont"); reveal_strlit("numSprites"); assert("invisCont"@.len() != "numSprites"@.len()); }
    assert("invisCont"@ != "headIndex"@) by { reveal_strlit("invisCont"); reveal_strlit("headIndex"); assert("invisCont"@[0] != "headIndex"@[0]); }
    assert("invisCont"@ != "bodyIndex"@) by { reveal_strlit("invisCont"); reveal_strlit("bodyIndex"); assert("invisCont"@[0] != "bodyIndex"@[0]); }
    assert("invisCont"@ != "backFootIndex"@) by { reveal_strlit("invisCont"); reveal_strlit("backFootIndex"); assert("invisCont"@.len() != "backFootIndex"@.len()); }
    assert("invisCont"@ != "frontFootIndex"@) by { reveal_strlit("invisCont"); reveal_strlit("frontFootIndex"); assert("invisCont"@.len() != "frontFootIndex"@.len()); }
    assert("invisCont"@ != "numUses"@) by { reveal_strlit("invisCont"); reveal_strlit("numUses"); assert("invisCont"@.len() != "numUses"@.len()); }
    assert("invisCont"@ != "useVanishIndex"@) by { reveal_strlit("invisCont"); reveal_strlit("useVanishIndex"); assert("invisCont"@.len() != "useVanishIndex"@.len()); }
    assert("invisCont"@ != "useAppearIndex"@) by { reveal_strlit("invisCont"); reveal_strlit("useAppearIndex"); assert("invisCont"@.len() != "useAppearIndex"@.len()); }
    assert("invisCont"@ != "pixHeight"@) by { reveal_strlit("invisCont"); reveal_strlit("pixHeight"); assert("invisCont"@[0] != "pixHeight"@[0]); }
    assert("spritesDrawnBehind"@ != "containable"@) by { reveal_strlit("spritesDrawnBehind"); reveal_strlit("containable"); assert("spritesDrawnBehind"@.len() != "containable"@.len()); }
    assert("spritesDrawnBehind"@ != "containSize"@) by { reveal_strlit("spritesDrawnBehind"); reveal_strlit("containSize"); assert("spritesDrawnBehind"@.len() != "containSize"@.len()); }
    assert("spritesDrawnBehind"@ != "permanent"@) by { reveal_strlit("spritesDrawnBehind"); reveal_strlit("permanent"); assert("spritesDrawnBehind"@.len() != "permanent"@.len()); }
    assert("spritesDrawnBehind"@ != "noFlip"@) by { reveal_strlit("spritesDrawnBehind"); reveal_strlit("noFlip"); assert("spritesDrawnBehind"@.len() != "noFlip"@.len()); }
    assert("spritesDrawnBehind"@ != "sideAccess"@) by { reveal_strlit("spritesDrawnBehind"); reveal_strlit("sideAccess"); assert("spritesDrawnBehind"@.len() != "sideAccess"@.len()); }
    assert("spritesDrawnBehind"@ != "heldInHand"@) by { reveal_strlit("spritesDrawnBehind"); reveal_strlit("heldInHand"); assert("spritesDrawnBehind"@.len() != "heldInHand"@.len()); }
    assert("spritesDrawnBehind"@ != "ridingAnimationIndex"@) by { reveal_strlit("spritesDrawnBehind"); reveal_strlit("ridingAnimationIndex"); assert("spritesDrawnBehind"@.len() != "ridingAnimationIndex"@.len()); }
    assert("spritesDrawnBehind"@ != "blocksWalking"@) by { reveal_strlit("spritesDrawnBehind"); reveal_strlit("blocksWalking"); assert("spritesDrawnBehind"@.len() != "blocksWalking"@.len()); }
    assert("spritesDrawnBehind"@ != "mapChance"@) by { reveal_strlit("spritesDrawnBehind"); reveal_strlit("mapChance"); assert("spritesDrawnBehind"@.len() != "mapChance"@.len()); }
    assert("spritesDrawnBehind"@ != "heatValue"@) by { reveal_strlit("spritesDrawnBehind"); reveal_strlit("heatValue"); assert("spritesDrawnBehind"@.len() != "heatValue"@.len()); }
    assert("spritesDrawnBehind"@ != "rValue"@) by { reveal_strlit("spritesDrawnBehind"); reveal_strlit("rValue"); assert("spritesDrawnBehind"@.len() != "rValue"@.len()); }
    assert("spritesDrawnBehind"@ != "person"@) by { reveal_strlit("spritesDrawnBehind"); reveal_strlit("person"); assert("spritesDrawnBehind"@.len() != "person"@.len()); }
    assert("spritesDrawnBehind"@ != "male"@) by { reveal_strlit("spritesDrawnBehind"); reveal_strlit("male"); assert("spritesDrawnBehind"@.len() != "male"@.len()); }
    assert("spritesDrawnBehind"@ != "deathMarker"@) by { reveal_strlit("spritesDrawnBehind"); reveal_strlit("deathMarker"); assert("spritesDrawnBehind"@.len() != "deathMarker"@.len()); }
    assert("spritesDrawnBehind"@ != "homeMarker"@) by { reveal_strlit("spritesDrawnBehind"); reveal_strlit("homeMarker"); assert("spritesDrawnBehind"@.len() != "homeMarker"@.len()); }
    assert("spritesDrawnBehind"@ != "floor"@) by { reveal_strlit("spritesDrawnBehind"); reveal_strlit("floor"); assert("spritesDrawnBehind"@.len() != "floor"@.len()); }
    assert("spritesDrawnBehind"@ != "partialFloor"@) by { reveal_strlit("spritesDrawnBehind"); reveal_strlit("partialFloor"); assert("spritesDrawnBehind"@.len() != "partialFloor"@.len()); }
    assert("spritesDrawnBehind"@ != "floorHugging"@) by { reveal_strlit("spritesDrawnBehind"); reveal_strlit("floorHugging"); assert("spritesDrawnBehind"@.len() != "floorHugging"@.len()); }
    assert("spritesDrawnBehind"@ != "wallLayer"@) by { reveal_strlit("spritesDrawnBehind"); reveal_strlit("wallLayer"); assert("spritesDrawnBehind"@.len() != "wallLayer"@.len()); }
    assert("spritesDrawnBehind"@ != "frontWall"@) by { reveal_strlit("spritesDrawnBehind"); reveal_strlit("frontWall"); assert("spritesDrawnBehind"@.len() != "frontWall"@.len()); }
    assert("spritesDrawnBehind"@ != "foodValue"@) by { reveal_strlit("spritesDrawnBehind"); reveal_strlit("foodValue"); assert("spritesDrawnBehind"@.len() != "foodValue"@.len()); }
    assert("spritesDrawnBehind"@ != "speedMult"@) by { reveal_strlit("spritesDrawnBehind"); reveal_strlit("speedMult"); assert("spritesDrawnBehind"@.len() != "speedMult"@.len()); }
    assert("spritesDrawnBehind"@ != "containOffset"@) by { reveal_strlit("spritesDrawnBehind"); reveal_strlit("containOffset"); assert("spritesDrawnBehind"@.len() != "containOffset"@.len()); }
    assert("spritesDrawnBehind"@ != "heldOffset"@) by { reveal_strlit("spritesDrawnBehind"); reveal_strlit("heldOffset"); assert("spritesDrawnBehind"@.len() != "heldOffset"@.len()); }
    assert("spritesDrawnBehind"@ != "clothing"@) by { reveal_strlit("spritesDrawnBehind"); reveal_strlit("clothing"); assert("spritesDrawnBehind"@.len() != "clothing"@.len()); }
    assert("spritesDrawnBehind"@ != "clothingOffset"@) by { reveal_strlit("spritesDrawnBehind"); reveal_strlit("clothingOffset"); assert("spritesDrawnBehind"@.len() != "clothingOffset"@.len()); }
    assert("spritesDrawnBehind"@ != "deadlyDistance"@) by { reveal_strlit("spritesDrawnBehind"); reveal_strlit("deadlyDistance"); assert("spritesDrawnBehind"@.len() != "deadlyDistance"@.len()); }
    assert("spritesDrawnBehind"@ != "useDistance"@) by { reveal_strlit("spritesDrawnBehind"); reveal_strlit("useDistance"); assert("spritesDrawnBehind"@.len() != "useDistance"@.len()); }
    assert("spritesDrawnBehind"@ != "sounds"@) by { reveal_strlit("spritesDrawnBehind"); reveal_strlit("sounds"); assert("spritesDrawnBehind"@.len() != "sounds"@.len()); }
    assert("spritesDrawnBehind"@ != "creationSoundInitialOnly"@) by { reveal_strlit("spritesDrawnBehind"); reveal_strlit("creationSoundInitialOnly"); assert("spritesDrawnBehind"@.len() != "creationSoundInitialOnly"@.len()); }
    assert("spritesDrawnBehind"@ != "creationSoundForce"@) by { reveal_strlit("spritesDrawnBehind"); reveal_strlit("creationSoundForce"); assert("spritesDrawnBehind"@[0] != "creationSoundForce"@[0]); }
    assert("spritesDrawnBehind"@ != "numSlots"@) by { reveal_strlit("spritesDrawnBehind"); reveal_strlit("numSlots"); assert("spritesDrawnBehind"@.len() != "numSlots"@.len()); }
    assert("spritesDrawnBehind"@ != "slotSize"@) by { reveal_strlit("spritesDrawnBehind"); reveal_strlit("slotSize"); assert("spritesDrawnBehind"@.len() != "slotSize"@.len()); }
    assert("spritesDrawnBehind"@ != "slotStyle"@) by { reveal_strlit("spritesDrawnBehind"); reveal_strlit("slotStyle"); assert("spritesDrawnBehind"@.len() != "slotStyle"@.len()); }
    assert("spritesDrawnBehind"@ != "slotsLocked"@) by { reveal_strlit("spritesDrawnBehind"); reveal_strlit("slotsLocked"); assert("spritesDrawnBehind"@.len() != "slotsLocked"@.len()); }
    assert("spritesDrawnBehind"@ != "slotsNoSwap"@) by { reveal_strlit("spritesDrawnBehind"); reveal_strlit("slotsNoSwap"); assert("spritesDrawnBehind"@.len() != "slotsNoSwap"@.len()); }
    assert("spritesDrawnBehind"@ != "numSprites"@) by { reveal_strlit("spritesDrawnBehind"); reveal_strlit("numSprites"); assert("spritesDrawnBehind"@.len() != "numSprites"@.len()); }
    assert("spritesDrawnBehind"@ != "headIndex"@) by { reveal_strlit("spritesDrawnBehind"); reveal_strlit("headIndex"); assert("spritesDrawnBehind"@.len() != "headIndex"@.len()); }
    assert("spritesDrawnBehind"@ != "bodyIndex"@) by { reveal_strlit("spritesDrawnBehind"); reveal_strlit("bodyIndex"); assert("spritesDrawnBehind"@.len() != "bodyIndex"@.len()); }
    assert("spritesDrawnBehind"@ != "backFootIndex"@) by { reveal_strlit("spritesDrawnBehind"); reveal_strlit("backFootIndex"); assert("spritesDrawnBehind"@.len() != "backFootIndex"@.len()); }
    assert("spritesDrawnBehind"@ != "frontFootIndex"@) by { reveal_strlit("spritesDrawnBehind"); reveal_strlit("frontFootIndex"); assert("spritesDrawnBehind"@.len() != "frontFootIndex"@.len()); }
    assert("spritesDrawnBehind"@ != "numUses"@) by { reveal_strlit("spritesDrawnBehind"); reveal_strlit("numUses"); assert("spritesDrawnBehind"@.len() != "numUses"@.len()); }
    assert("spritesDrawnBehind"@ != "useVanishIndex"@) by { reveal_strlit("spritesDrawnBehind"); reveal_strlit("useVanishIndex"); assert("spritesDrawnBehind"@.len() != "useVanishIndex"@.len()); }
    assert("spritesDrawnBehind"@ != "useAppearIndex"@) by { reveal_strlit("spritesDrawnBehind"); reveal_strlit("useAppearIndex"); assert("spritesDrawnBehind"@.len() != "useAppearIndex"@.len()); }
    assert("spritesDrawnBehind"@ != "pixHeight"@) by { reveal_strlit("spritesDrawnBehind"); reveal_strlit("pixHeight"); assert("spritesDrawnBehind"@.len() != "pixHeight"@.len()); }
    assert("spritesAdditiveBlend"@ != "containable"@) by { reveal_strlit("spritesAdditiveBlend"); reveal_strlit("containable"); assert("spritesAdditiveBlend"@.len() != "containable"@.len()); }
    assert("spritesAdditiveBlend"@ != "containSize"@) by { reveal_strlit("spritesAdditiveBlend"); reveal_strlit("containSize"); assert("spritesAdditiveBlend"@.len() != "containSize"@.len()); }
    assert("spritesAdditiveBlend"@ != "permanent"@) by { reveal_strlit("spritesAdditiveBlend"); reveal_strlit("permanent"); assert("spritesAdditiveBlend"@.len() != "permanent"@.len()); }
    assert("spritesAdditiveBlend"@ != "noFlip"@) by { reveal_strlit("spritesAdditiveBlend"); reveal_strlit("noFlip"); assert("spritesAdditiveBlend"@.len() != "noFlip"@.len()); }
    assert("spritesAdditiveBlend"@ != "sideAccess"@) by { reveal_strlit("spritesAdditiveBlend"); reveal_strlit("sideAccess"); assert("spritesAdditiveBlend"@.len() != "sideAccess"@.len()); }
    assert("spritesAdditiveBlend"@ != "heldInHand"@) by { reveal_strlit("spritesAdditiveBlend"); reveal_strlit("heldInHand"); assert("spritesAdditiveBlend"@.len() != "heldInHand"@.len()); }
    assert("spritesAdditiveBlend"@ != "ridingAnimationIndex"@) by { reveal_strlit("spritesAdditiveBlend"); reveal_strlit("ridingAnimationIndex"); assert("spritesAdditiveBlend"@[0] != "ridingAnimationIndex"@[0]); }
    assert("spritesAdditiveBlend"@ != "blocksWalking"@) by { reveal_strlit("spritesAdditiveBlend"); reveal_strlit("blocksWalking"); assert("spritesAdditiveBlend"@.len() != "blocksWalking"@.len()); }
    assert("spritesAdditiveBlend"@ != "mapChance"@) by { reveal_strlit("spritesAdditiveBlend"); reveal_strlit("mapChance"); assert("spritesAdditiveBlend"@.len() != "mapChance"@.len()); }
    assert("spritesAdditiveBlend"@ != "heatValue"@) by { reveal_strlit("spritesAdditiveBlend"); reveal_strlit("heatValue"); assert("spritesAdditiveBlend"@.len() != "heatValue"@.len()); }
    assert("spritesAdditiveBlend"@ != "rValue"@) by { reveal_strlit("spritesAdditiveBlend"); reveal_strlit("rValue"); assert("spritesAdditiveBlend"@.len() != "rValue"@.len()); }
    assert("spritesAdditiveBlend"@ != "person"@) by { reveal_strlit("spritesAdditiveBlend"); reveal_strlit("person"); assert("spritesAdditiveBlend"@.len() != "person"@.len()); }
    assert("spritesAdditiveBlend"@ != "male"@) by { reveal_strlit("spritesAdditiveBlend"); reveal_strlit("male"); assert("spritesAdditiveBlend"@.len() != "male"@.len()); }
    assert("spritesAdditiveBlend"@ != "deathMarker"@) by { reveal_strlit("spritesAdditiveBlend"); reveal_strlit("deathMarker"); assert("spritesAdditiveBlend"@.len() != "deathMarker"@.len()); }
    assert("spritesAdditiveBlend"@ != "homeMarker"@) by { reveal_strlit("spritesAdditiveBlend"); reveal_strlit("homeMarker"); assert("spritesAdditiveBlend"@.len() != "homeMarker"@.len()); }
    assert("spritesAdditiveBlend"@ != "floor"@) by { reveal_strlit("spritesAdditiveBlend"); reveal_strlit("floor"); assert("spritesAdditiveBlend"@.len() != "floor"@.len()); }
    assert("spritesAdditiveBlend"@ != "partialFloor"@) by { reveal_strlit("spritesAdditiveBlend"); reveal_strlit("partialFloor"); assert("spritesAdditiveBlend"@.len() != "partialFloor"@.len()); }
    assert("spritesAdditiveBlend"@ != "floorHugging"@) by { reveal_strlit("spritesAdditiveBlend"); reveal_strlit("floorHugging"); assert("spritesAdditiveBlend"@.len() != "floorHugging"@.len()); }
    assert("spritesAdditiveBlend"@ != "wallLayer"@) by { reveal_strlit("spritesAdditiveBlend"); reveal_strlit("wallLayer"); assert("spritesAdditiveBlend"@.len() != "wallLayer"@.len()); }
    assert("spritesAdditiveBlend"@ != "frontWall"@) by { reveal_strlit("spritesAdditiveBlend"); reveal_strlit("frontWall"); assert("spritesAdditiveBlend"@.len() != "frontWall"@.len()); }
    assert("spritesAdditiveBlend"@ != "foodValue"@) by { reveal_strlit("spritesAdditiveBlend"); reveal_strlit("foodValue"); assert("spritesAdditiveBlend"@.len() != "foodValue"@.len()); }
    assert("spritesAdditiveBlend"@ != "speedMult"@) by { reveal_strlit("spritesAdditiveBlend"); reveal_strlit("speedMult"); assert("spritesAdditiveBlend"@.len() != "speedMult"@.len()); }
    assert("spritesAdditiveBlend"@ != "containOffset"@) by { reveal_strlit("spritesAdditiveBlend"); reveal_strlit("containOffset"); assert("spritesAdditiveBlend"@.len() != "containOffset"@.len()); }
    assert("spritesAdditiveBlend"@ != "heldOffset"@) by { reveal_strlit("spritesAdditiveBlend"); reveal_strlit("heldOffset"); assert("spritesAdditiveBlend"@.len() != "heldOffset"@.len()); }
    assert("spritesAdditiveBlend"@ != "clothing"@) by { reveal_strlit("spritesAdditiveBlend"); reveal_strlit("clothing"); assert("spritesAdditiveBlend"@.len() != "clothing"@.len()); }
    assert("spritesAdditiveBlend"@ != "clothingOffset"@) by { reveal_strlit("spritesAdditiveBlend"); reveal_strlit("clothingOffset"); assert("spritesAdditiveBlend"@.len() != "clothingOffset"@.len()); }
    assert("spritesAdditiveBlend"@ != "deadlyDistance"@) by { reveal_strlit("spritesAdditiveBlend"); reveal_strlit("deadlyDistance"); assert("spritesAdditiveBlend"@.len() != "deadlyDistance"@.len()); }
    assert("spritesAdditiveBlend"@ != "useDistance"@) by { reveal_strlit("spritesAdditiveBlend"); reveal_strlit("useDistance"); assert("spritesAdditiveBlend"@.len() != "useDistance"@.len()); }
    assert("spritesAdditiveBlend"@ != "sounds"@) by { reveal_strlit("spritesAdditiveBlend"); reveal_strlit("sounds"); assert("spritesAdditiveBlend"@.len() != "sounds"@.len()); }
    assert("spritesAdditiveBlend"@ != "creationSoundInitialOnly"@) by { reveal_strlit("spritesAdditiveBlend"); reveal_strlit("creationSoundInitialOnly"); assert("spritesAdditiveBlend"@.len() != "creationSoundInitialOnly"@.len()); }
    assert("spritesAdditiveBlend"@ != "creationSoundForce"@) by { reveal_strlit("spritesAdditiveBlend"); reveal_strlit("creationSoundForce"); assert("spritesAdditiveBlend"@.len() != "creationSoundForce"@.len()); }
    assert("spritesAdditiveBlend"@ != "numSlots"@) by { reveal_strlit("spritesAdditiveBlend"); reveal_strlit("numSlots"); assert("spritesAdditiveBlend"@.len() != "numSlots"@.len()); }
    assert("spritesAdditiveBlend"@ != "slotSize"@) by { reveal_strlit("spritesAdditiveBlend"); reveal_strlit("slotSize"); assert("spritesAdditiveBlend"@.len() != "slotSize"@.len()); }
    assert("spritesAdditiveBlend"@ != "slotStyle"@) by { reveal_strlit("spritesAdditiveBlend"); reveal_strlit("slotStyle"); assert("spritesAdditiveBlend"@.len() != "slotStyle"@.len()); }
    assert("spritesAdditiveBlend"@ != "slotsLocked"@) by { reveal_strlit("spritesAdditiveBlend"); reveal_strlit("slotsLocked"); assert("spritesAdditiveBlend"@.len() != "slotsLocked"@.len()); }
    assert("spritesAdditiveBlend"@ != "slotsNoSwap"@) by { reveal_strlit("spritesAdditiveBlend"); reveal_strlit("slotsNoSwap"); assert("spritesAdditiveBlend"@.len() != "slotsNoSwap"@.len()); }
    assert("spritesAdditiveBlend"@ != "numSprites"@) by { reveal_strlit("spritesAdditiveBlend"); reveal_strlit("numSprites"); assert("spritesAdditiveBlend"@.len() != "numSprites"@.len()); }
    assert("spritesAdditiveBlend"@ != "headIndex"@) by { reveal_strlit("spritesAdditiveBlend"); reveal_strlit("headIndex"); assert("spritesAdditiveBlend"@.len() != "headIndex"@.len()); }
    assert("spritesAdditiveBlend"@ != "bodyIndex"@) by { reveal_strlit("spritesAdditiveBlend"); reveal_strlit("bodyIndex"); assert("spritesAdditiveBlend"@.len() != "bodyIndex"@.len()); }
    assert("spritesAdditiveBlend"@ != "backFootIndex"@) by { reveal_strlit("spritesAdditiveBlend"); reveal_strlit("backFootIndex"); assert("spritesAdditiveBlend"@.len() != "backFootIndex"@.len()); }
    assert("spritesAdditiveBlend"@ != "frontFootIndex"@) by { reveal_strlit("spritesAdditiveBlend"); reveal_strlit("frontFootIndex"); assert("spritesAdditiveBlend"@.len() != "frontFootIndex"@.len()); }
    assert("spritesAdditiveBlend"@ != "numUses"@) by { reveal_strlit("spritesAdditiveBlend"); reveal_strlit("numUses"); assert("spritesAdditiveBlend"@.len() != "numUses"@.len()); }
    assert("spritesAdditiveBlend"@ != "useVanishIndex"@) by { reveal_strlit("spritesAdditiveBlend"); reveal_strlit("useVanishIndex"); assert("spritesAdditiveBlend"@.len() != "useVanishIndex"@.len()); }
    assert("spritesAdditiveBlend"@ != "useAppearIndex"@) by { reveal_strlit("spritesAdditiveBlend"); reveal_strlit("useAppearIndex"); assert("spritesAdditiveBlend"@.len() != "useAppearIndex"@.len()); }
    assert("spritesAdditiveBlend"@ != "pixHeight"@) by { reveal_strlit("spritesAdditiveBlend"); reveal_strlit("pixHeight"); assert("spritesAdditiveBlend"@.len() != "pixHeight"@.len()); }
    assert("ignoredCont"@ != "containable"@) by { reveal_strlit("ignoredCont"); reveal_strlit("containable"); assert("ignoredCont"@[0] != "containable"@[0]); }
    assert("ignoredCont"@ != "containSize"@) by { reveal_strlit("ignoredCont"); reveal_strlit("containSize"); assert("ignoredCont"@[0] != "containSize"@[0]); }
    assert("ignoredCont"@ != "permanent"@) by { reveal_strlit("ignoredCont"); reveal_strlit("permanent"); assert("ignoredCont"@.len() != "permanent"@.len()); }
    assert("ignoredCont"@ != "noFlip"@) by { reveal_strlit("ignoredCont"); reveal_strlit("noFlip"); assert("ignoredCont"@.len() != "noFlip"@.len()); }
    assert("ignoredCont"@ != "sideAccess"@) by { reveal_strlit("ignoredCont"); reveal_strlit("sideAccess"); assert("ignoredCont"@.len() != "sideAccess"@.len()); }
    assert("ignoredCont"@ != "heldInHand"@) by { reveal_strlit("ignoredCont"); reveal_strlit("heldInHand"); assert("ignoredCont"@.len() != "heldInHand"@.len()); }
    assert("ignoredCont"@ != "ridingAnimationIndex"@) by { reveal_strlit("ignoredCont"); reveal_strlit("ridingAnimationIndex"); assert("ignoredCont"@.len() != "ridingAnimationIndex"@.len()); }
    assert("ignoredCont"@ != "blocksWalking"@) by { reveal_strlit("ignoredCont"); reveal_strlit("blocksWalking"); assert("ignoredCont"@.len() != "blocksWalking"@.len()); }
    assert("ignoredCont"@ != "mapChance"@) by { reveal_strlit("ignoredCont"); reveal_strlit("mapChance"); assert("ignoredCont"@.len() != "mapChance"@.len()); }
    assert("ignoredCont"@ != "heatValue"@) by { reveal_strlit("ignoredCont"); reveal_strlit("heatValue"); assert("ignoredCont"@.len() != "heatValue"@.len()); }
    assert("ignoredCont"@ != "rValue"@) by { reveal_strlit("ignoredCont"); reveal_strlit("rValue"); assert("ignoredCont"@.len() != "rValue"@.len()); }
    assert("ignoredCont"@ != "person"@) by { reveal_strlit("ignoredCont"); reveal_strlit("person"); assert("ignoredCont"@.len() != "person"@.len()); }
    assert("ignoredCont"@ != "male"@) by { reveal_strlit("ignoredCont"); reveal_strlit("male"); assert("ignoredCont"@.len() != "male"@.len()); }
    assert("ignoredCont"@ != "deathMarker"@) by { reveal_strlit("ignoredCont"); reveal_strlit("deathMarker"); assert("ignoredCont"@[0] != "deathMarker"@[0]); }
    assert("ignoredCont"@ != "homeMarker"@) by { reveal_strlit("ignoredCont"); reveal_strlit("homeMarker"); assert("ignoredCont"@.len() != "homeMarker"@.len()); }
    assert("ignoredCont"@ != "floor"@) by { reveal_strlit("ignoredCont"); reveal_strlit("floor"); assert("ignoredCont"@.len() != "floor"@.len()); }
    assert("ignoredCont"@ != "partialFloor"@) by { reveal_strlit("ignoredCont"); reveal_strlit("partialFloor"); assert("ignoredCont"@.len() != "partialFloor"@.len()); }
    assert("ignoredCont"@ != "floorHugging"@) by { reveal_strlit("ignoredCont"); reveal_strlit("floorHugging"); assert("ignoredCont"@.len() != "floorHugging"@.len()); }
    assert("ignoredCont"@ != "wallLayer"@) by { reveal_strlit("ignoredCont"); reveal_strlit("wallLayer"); assert("ignoredCont"@.len() != "wallLayer"@.len()); }
    assert("ignoredCont"@ != "frontWall"@) by { reveal_strlit("ignoredCont"); reveal_strlit("frontWall"); assert("ignoredCont"@.len() != "frontWall"@.len()); }
    assert("ignoredCont"@ != "foodValue"@) by { reveal_strlit("ignoredCont"); reveal_strlit("foodValue"); assert("ignoredCont"@.len() != "foodValue"@.len()); }
    assert("ignoredCont"@ != "speedMult"@) by { reveal_strlit("ignoredCont"); reveal_strlit("speedMult"); assert("ignoredCont"@.len() != "speedMult"@.len()); }
    assert("ignoredCont"@ != "containOffset"@) by { reveal_strlit("ignoredCont"); reveal_strlit("containOffset"); assert("ignoredCont"@.len() != "containOffset"@.len()); }
    assert("ignoredCont"@ != "heldOffset"@) by { reveal_strlit("ignoredCont"); reveal_strlit("heldOffset"); assert("ignoredCont"@.len() != "heldOffset"@.len()); }
    assert("ignoredCont"@ != "clothing"@) by { reveal_strlit("ignoredCont"); reveal_strlit("clothing"); assert("ignoredCont"@.len() != "clothing"@.len()); }
    assert("ignoredCont"@ != "clothingOffset"@) by { reveal_strlit("ignoredCont"); reveal_strlit("clothingOffset"); assert("ignoredCont"@.len() != "clothingOffset"@.len()); }
    assert("ignoredCont"@ != "deadlyDistance"@) by { reveal_strlit("ignoredCont"); reveal_strlit("deadlyDistance"); assert("ignoredCont"@.len() != "deadlyDistance"@.len()); }
    assert("ignoredCont"@ != "useDistance"@) by { reveal_strlit("ignoredCont"); reveal_strlit("useDistance"); assert("ignoredCont"@[0] != "useDistance"@[0]); }
    assert("ignoredCont"@ != "sounds"@) by { reveal_strlit("ignoredCont"); reveal_strlit("sounds"); assert("ignoredCont"@.len() != "sounds"@.len()); }
    assert("ignoredCont"@ != "creationSoundInitialOnly"@) by { reveal_strlit("ignoredCont"); reveal_strlit("creationSoundInitialOnly"); assert("ignoredCont"@.len() != "creationSoundInitialOnly"@.len()); }
    assert("ignoredCont"@ != "creationSoundForce"@) by { reveal_strlit("ignoredCont"); reveal_strlit("creationSoundForce"); assert("ignoredCont"@.len() != "creationSoundForce"@.len()); }
    assert("ignoredCont"@ != "numSlots"@) by { reveal_strlit("ignoredCont"); reveal_strlit("numSlots"); assert("ignoredCont"@.len() != "numSlots"@.len()); }
    assert("ignoredCont"@ != "slotSize"@) by { reveal_strlit("ignoredCont"); reveal_strlit("slotSize"); assert("ignoredCont"@.len() != "slotSize"@.len()); }
    assert("ignoredCont"@ != "slotStyle"@) by { reveal_strlit("ignoredCont"); reveal_strlit("slotStyle"); assert("ignoredCont"@.len() != "slotStyle"@.len()); }
    assert("ignoredCont"@ != "slotsLocked"@) by { reveal_strlit("ignoredCont"); reveal_strlit("slotsLocked"); assert("ignoredCont"@[0] != "slotsLocked"@[0]); }
    assert("ignoredCont"@ != "slotsNoSwap"@) by { reveal_strlit("ignoredCont"); reveal_strlit("slotsNoSwap"); assert("ignoredCont"@[0] != "slotsNoSwap"@[0]); }
    assert("ignoredCont"@ != "numSprites"@) by { reveal_strlit("ignoredCont"); reveal_strlit("numSprites"); assert("ignoredCont"@.len() != "numSprites"@.len()); }
    assert("ignoredCont"@ != "headIndex"@) by { reveal_strlit("ignoredCont"); reveal_strlit("headIndex"); assert("ignoredCont"@.len() != "headIndex"@.len()); }
    assert("ignoredCont"@ != "bodyIndex"@) by { reveal_strlit("ignoredCont"); reveal_strlit("bodyIndex"); assert("ignoredCont"@.len() != "bodyIndex"@.len()); }
    assert("ignoredCont"@ != "backFootIndex"@) by { reveal_strlit("ignoredCont"); reveal_strlit("backFootIndex"); assert("ignoredCont"@.len() != "backFootIndex"@.len()); }
    assert("ignoredCont"@ != "frontFootIndex"@) by { reveal_strlit("ignoredCont"); reveal_strlit("frontFootIndex"); assert("ignoredCont"@.len() != "frontFootIndex"@.len()); }
    assert("ignoredCont"@ != "numUses"@) by { reveal_strlit("ignoredCont"); reveal_strlit("numUses"); assert("ignoredCont"@.len() != "numUses"@.len()); }
    assert("ignoredCont"@ != "useVanishIndex"@) by { reveal_strlit("ignoredCont"); reveal_strlit("useVanishIndex"); assert("ignoredCont"@.len() != "useVanishIndex"@.len()); }
    assert("ignoredCont"@ != "useAppearIndex"@) by { reveal_strlit("ignoredCont"); reveal_strlit("useAppearIndex"); assert("ignoredCont"@.len() != "useAppearIndex"@.len()); }
    assert("ignoredCont"@ != "pixHeight"@) by { reveal_strlit("ignoredCont"); reveal_strlit("pixHeight"); assert("ignoredCont"@.len() != "pixHeight"@.len()); }
}


/// Whether a line named `n`, with value `v`, carries a value of a known field
/// that does not read (`l` is the whole line).
pub open spec fn line_fails(n: Seq<char>, v: Seq<char>, l: Seq<char>) -> bool {
    fails_flag(n, v, l) || fails_int(n, v, l) || fails_misc(n, v, l) || fails_comp(n, v, l)
}

/// Whether a line of this group's names carries a value that does not read.
pub open spec fn fails_flag(n: Seq<char>, v: Seq<char>, l: Seq<char>) -> bool {
    false
}

/// Whether a line of this group's names carries a value that does not read.
pub open spec fn fails_int(n: Seq<char>, v: Seq<char>, l: Seq<char>) -> bool {
    (n == "heldInHand"@ && parse_int_within(v, -128, 127) is None) || (n == "ridingAnimationIndex"@ && parse_int_within(v, i32::MIN as int, i32::MAX as int) is None) || (n == "heatValue"@ && parse_int_within(v, i32::MIN as int, i32::MAX as int) is None) || (n == "partialFloor"@ && parse_int_within(v, -128, 127) is None) || (n == "frontWall"@ && parse_int_within(v, i32::MIN as int, i32::MAX as int) is None) || (n == "deadlyDistance"@ && parse_int_within(v, i32::MIN as int, i32::MAX as int) is None) || (n == "useDistance"@ && parse_int_within(v, i32::MIN as int, i32::MAX as int) is None) || (n == "slotStyle"@ && parse_int_within(v, i32::MIN as int, i32::MAX as int) is None) || (n == "numSprites"@ && parse_int_within(v, i32::MIN as int, i32::MAX as int) is None) || (n == "pixHeight"@ && parse_int_within(v, i32::MIN as int, i32::MAX as int) is None)
}

/// Whether a line of this group's names carries a value that does not read.
pub open spec fn fails_misc(n: Seq<char>, v: Seq<char>, l: Seq<char>) -> bool {
    (n == "rValue"@ && parse_fixed(v) is None) || (n == "speedMult"@ && parse_fixed(v) is None) || (n == "containOffset"@ && I32Pair::parse(v) is None) || (n == "heldOffset"@ && DoublePair::parse(v) is None) || (n == "clothingOffset"@ && DoublePair::parse(v) is None) || (n == "slotSize"@ && parse_fixed(v) is None)
}

/// Whether a line of this group's names carries a value that does not read.
pub open spec fn fails_comp(n: Seq<char>, v: Seq<char>, l: Seq<char>) -> bool {
    (n == "containSize"@ && ContainSizeData::parse(l) is None) || (n == "permanent"@ && PermanentData::parse(l) is None) || (n == "blocksWalking"@ && BlocksWalkingData::parse(l) is None) || (n == "mapChance"@ && MapChanceData::parse(l) is None) || (n == "person"@ && PersonData::parse(l) is None) || (n == "clothing"@ && ClothingData::parse(l) is None) || (n == "numSlots"@ && NumSlotsData::parse(l) is None) || (n == "numUses"@ && NumUsesData::parse(l) is None)
}

#[verifier::rlimit(100)]
fn apply_flag(
    o: &mut OneLifeDataObject,
    s: &Vec<char>,
    name: (usize, usize),
    value: (usize, usize),
    line: (usize, usize),
) -> (r: Result<bool, FormatError>)
    requires
        old(o).wf(),
        name.0 <= name.1 <= s@.len(),
        value.0 <= value.1 <= s@.len(),
        line.0 <= line.1 <= s@.len(),
    ensures
        final(o).wf(),
        final(o).id == old(o).id,
        final(o).name == old(o).name,
        final(o).sprites == old(o).sprites,
        final(o).slotPosData == old(o).slotPosData,
        r is Err <==> fails_flag(s@.subrange(name.0 as int, name.1 as int), s@.subrange(value.0 as int, value.1 as int), s@.subrange(line.0 as int, line.1 as int)),
        s@.subrange(name.0 as int, name.1 as int) == "containable"@ && r is Ok ==> final(o).containable == Some(s@.subrange(value.0 as int, value.1 as int) != "0"@),
        s@.subrange(name.0 as int, name.1 as int) != "containable"@ ==> final(o).containable == old(o).containable,
        final(o).containSize == old(o).containSize,
        final(o).permanent == old(o).permanent,
        s@.subrange(name.0 as int, name.1 as int) == "noFlip"@ && r is Ok ==> final(o).noFlip == Some(s@.subrange(value.0 as int, value.1 as int) != "0"@),
        s@.subrange(name.0 as int, name.1 as int) != "noFlip"@ ==> final(o).noFlip == old(o).noFlip,
        s@.subrange(name.0 as int, name.1 as int) == "sideAccess"@ && r is Ok ==> final(o).sideAccess == Some(s@.subrange(value.0 as int, value.1 as int) != "0"@),
        s@.subrange(name.0 as int, name.1 as int) != "sideAccess"@ ==> final(o).sideAccess == old(o).sideAccess,
        final(o).heldInHand == old(o).heldInHand,
        final(o).ridingAnimationIndex == old(o).ridingAnimationIndex,
        final(o).blocksWalking == old(o).blocksWalking,
        final(o).mapChance == old(o).mapChance,
        final(o).heatValue == old(o).heatValue,
        final(o).rValue == old(o).rValue,
        final(o).person == old(o).person,
        s@.subrange(name.0 as int, name.1 as int) == "male"@ && r is Ok ==> final(o).male == Some(s@.subrange(value.0 as int, value.1 as int) != "0"@),
        s@.subrange(name.0 as int, name.1 as int) != "male"@ ==> final(o).male == old(o).male,
        s@.subrange(name.0 as int, name.1 as int) == "deathMarker"@ && r is Ok ==> final(o).deathMarker == Some(s@.subrange(value.0 as int, value.1 as int) != "0"@),
        s@.subrange(name.0 as int, name.1 as int) != "deathMarker"@ ==> final(o).deathMarker == old(o).deathMarker,
        s@.subrange(name.0 as int, name.1 as int) == "homeMarker"@ && r is Ok ==> final(o).homeMarker == Some(s@.subrange(value.0 as int, value.1 as int) != "0"@),
        s@.subrange(name.0 as int, name.1 as int) != "homeMarker"@ ==> final(o).homeMarker == old(o).homeMarker,
        s@.subrange(name.0 as int, name.1 as int) == "floor"@ && r is Ok ==> final(o).floor == Some(s@.subrange(value.0 as int, value.1 as int) != "0"@),
        s@.subrange(name.0 as int, name.1 as int) != "floor"@ ==> final(o).floor == old(o).floor,
        final(o).partialFloor == old(o).partialFloor,
        s@.subrange(name.0 as int, name.1 as int) == "floorHugging"@ && r is Ok ==> final(o).floorHugging == Some(s@.subrange(value.0 as int, value.1 as int) != "0"@),
        s@.subrange(name.0 as int, name.1 as int) != "floorHugging"@ ==> final(o).floorHugging == old(o).floorHugging,
        s@.subrange(name.0 as int, name.1 as int) == "wallLayer"@ && r is Ok ==> final(o).wallLayer == Some(s@.subrange(value.0 as int, value.1 as int) != "0"@),
        s@.subrange(name.0 as int, name.1 as int) != "wallLayer"@ ==> final(o).wallLayer == old(o).wallLayer,
        final(o).frontWall == old(o).frontWall,
        final(o).foodValue == old(o).foodValue,
        final(o).speedMult == old(o).speedMult,
        final(o).containOffset == old(o).containOffset,
        final(o).heldOffset == old(o).heldOffset,
        final(o).clothing == old(o).clothing,
        final(o).clothingOffset == old(o).clothingOffset,
        final(o).deadlyDistance == old(o).deadlyDistance,
        final(o).useDistance == old(o).useDistance,
        final(o).sounds == old(o).sounds,
        s@.subrange(name.0 as int, name.1 as int) == "creationSoundInitialOnly"@ && r is Ok ==> final(o).creationSoundInitialOnly == Some(s@.subrange(value.0 as int, value.1 as int) != "0"@),
        s@.subrange(name.0 as int, name.1 as int) != "creationSoundInitialOnly"@ ==> final(o).creationSoundInitialOnly == old(o).creationSoundInitialOnly,
        s@.subrange(name.0 as int, name.1 as int) == "creationSoundForce"@ && r is Ok ==> final(o).creationSoundForce == Some(s@.subrange(value.0 as int, value.1 as int) != "0"@),
        s@.subrange(name.0 as int, name.1 as int) != "creationSoundForce"@ ==> final(o).creationSoundForce == old(o).creationSoundForce,
        final(o).numSlots == old(o).numSlots,
        final(o).slotSize == old(o).slotSize,
        final(o).slotStyle == old(o).slotStyle,
        s@.subrange(name.0 as int, name.1 as int) == "slotsLocked"@ && r is Ok ==> final(o).slotsLocked == Some(s@.subrange(value.0 as int, value.1 as int) != "0"@),
        s@.subrange(name.0 as int, name.1 as int) != "slotsLocked"@ ==> final(o).slotsLocked == old(o).slotsLocked,
        s@.subrange(name.0 as int, name.1 as int) == "slotsNoSwap"@ && r is Ok ==> final(o).slotsNoSwap == Some(s@.subrange(value.0 as int, value.1 as int) != "0"@),
        s@.subrange(name.0 as int, name.1 as int) != "slotsNoSwap"@ ==> final(o).slotsNoSwap == old(o).slotsNoSwap,
        final(o).numSprites == old(o).numSprites,
        final(o).headIndex == old(o).headIndex,
        final(o).bodyIndex == old(o).bodyIndex,
        final(o).backFootIndex == old(o).backFootIndex,
        final(o).frontFootIndex == old(o).frontFootIndex,
        final(o).numUses == old(o).numUses,
        final(o).useVanishIndex == old(o).useVanishIndex,
        final(o).useAppearIndex == old(o).useAppearIndex,
        final(o).pixHeight == old(o).pixHeight,
{
    proof {
        assert("containable"@ != "noFlip"@) by { reveal_strlit("containable"); reveal_strlit("noFlip"); assert("containable"@.len() != "noFlip"@.len()); }
        assert("containable"@ != "sideAccess"@) by { reveal_strlit("containable"); reveal_strlit("sideAccess"); assert("containable"@.len() != "sideAccess"@.len()); }
        assert("containable"@ != "male"@) by { reveal_strlit("containable"); reveal_strlit("male"); assert("containable"@.len() != "male"@.len()); }
        assert("containable"@ != "deathMarker"@) by { reveal_strlit("containable"); reveal_strlit("deathMarker"); assert("containable"@[0] != "deathMarker"@[0]); }
        assert("containable"@ != "homeMarker"@) by { reveal_strlit("containable"); reveal_strlit("homeMarker"); assert("containable"@.len() != "homeMarker"@.len()); }
        assert("containable"@ != "floor"@) by { reveal_strlit("containable"); reveal_strlit("floor"); assert("containable"@.len() != "floor"@.len()); }
        assert("containable"@ != "floorHugging"@) by { reveal_strlit("containable"); reveal_strlit("floorHugging"); assert("containable"@.len() != "floorHugging"@.len()); }
        assert("containable"@ != "wallLayer"@) by { reveal_strlit("containable"); reveal_strlit("wallLayer"); assert("containable"@.len() != "wallLayer"@.len()); }
        assert("containable"@ != "creationSoundInitialOnly"@) by { reveal_strlit("containable"); reveal_strlit("creationSoundInitialOnly"); assert("containable"@.len() != "creationSoundInitialOnly"@.len()); }
        assert("containable"@ != "creationSoundForce"@) by { reveal_strlit("containable"); reveal_strlit("creationSoundForce"); assert("containable"@.len() != "creationSoundForce"@.len()); }
        assert("containable"@ != "slotsLocked"@) by { reveal_strlit("containable"); reveal_strlit("slotsLocked"); assert("containable"@[0] != "slotsLocked"@[0]); }
        assert("containable"@ != "slotsNoSwap"@) by { reveal_strlit("containable"); reveal_strlit("slotsNoSwap"); assert("containable"@[0] != "slotsNoSwap"@[0]); }
        assert("noFlip"@ != "sideAccess"@) by { reveal_strlit("noFlip"); reveal_strlit("sideAccess"); assert("noFlip"@.len() != "sideAccess"@.len()); }
        assert("noFlip"@ != "male"@) by { reveal_strlit("noFlip"); reveal_strlit("male"); assert("noFlip"@.len() != "male"@.len()); }
        assert("noFlip"@ != "deathMarker"@) by { reveal_strlit("noFlip"); reveal_strlit("deathMarker"); assert("noFlip"@.len() != "deathMarker"@.len()); }
        assert("noFlip"@ != "homeMarker"@) by { reveal_strlit("noFlip"); reveal_strlit("homeMarker"); assert("noFlip"@.len() != "homeMarker"@.len()); }
        assert("noFlip"@ != "floor"@) by { reveal_strlit("noFlip"); reveal_strlit("floor"); assert("noFlip"@.len() != "floor"@.len()); }
        assert("noFlip"@ != "floorHugging"@) by { reveal_strlit("noFlip"); reveal_strlit("floorHugging"); assert("noFlip"@.len() != "floorHugging"@.len()); }
        assert("noFlip"@ != "wallLayer"@) by { reveal_strlit("noFlip"); reveal_strlit("wallLayer"); assert("noFlip"@.len() != "wallLayer"@.len()); }
        assert("noFlip"@ != "creationSoundInitialOnly"@) by { reveal_strlit("noFlip"); reveal_strlit("creationSoundInitialOnly"); assert("noFlip"@.len() != "creationSoundInitialOnly"@.len()); }
        assert("noFlip"@ != "creationSoundForce"@) by { reveal_strlit("noFlip"); reveal_strlit("creationSoundForce"); assert("noFlip"@.len() != "creationSoundForce"@.len()); }
        assert("noFlip"@ != "slotsLocked"@) by { reveal_strlit("noFlip"); reveal_strlit("slotsLocked"); assert("noFlip"@.len() != "slotsLocked"@.len()); }
        assert("noFlip"@ != "slotsNoSwap"@) by { reveal_strlit("noFlip"); reveal_strlit("slotsNoSwap"); assert("noFlip"@.len() != "slotsNoSwap"@.len()); }
        assert("sideAccess"@ != "male"@) by { reveal_strlit("sideAccess"); reveal_strlit("male"); assert("sideAccess"@.len() != "male"@.len()); }
        assert("sideAccess"@ != "deathMarker"@) by { reveal_strlit("sideAccess"); reveal_strlit("deathMarker"); assert("sideAccess"@.len() != "deathMarker"@.len()); }
        assert("sideAccess"@ != "homeMarker"@) by { reveal_strlit("sideAccess"); reveal_strlit("homeMarker"); assert("sideAccess"@[0] != "homeMarker"@[0]); }
        assert("sideAccess"@ != "floor"@) by { reveal_strlit("sideAccess"); reveal_strlit("floor"); assert("sideAccess"@.len() != "floor"@.len()); }
        assert("sideAccess"@ != "floorHugging"@) by { reveal_strlit("sideAccess"); reveal_strlit("floorHugging"); assert("sideAccess"@.len() != "floorHugging"@.len()); }
        assert("sideAccess"@ != "wallLayer"@) by { reveal_strlit("sideAccess"); reveal_strlit("wallLayer"); assert("sideAccess"@.len() != "wallLayer"@.len()); }
        assert("sideAccess"@ != "creationSoundInitialOnly"@) by { reveal_strlit("sideAccess"); reveal_strlit("creationSoundInitialOnly"); assert("sideAccess"@.len() != "creationSoundInitialOnly"@.len()); }
        assert("sideAccess"@ != "creationSoundForce"@) by { reveal_strlit("sideAccess"); reveal_strlit("creationSoundForce"); assert("sideAccess"@.len() != "creationSoundForce"@.len()); }
        assert("sideAccess"@ != "slotsLocked"@) by { reveal_strlit("sideAccess"); reveal_strlit("slotsLocked"); assert("sideAccess"@.len() != "slotsLocked"@.len()); }
        assert("sideAccess"@ != "slotsNoSwap"@) by { reveal_strlit("sideAccess"); reveal_strlit("slotsNoSwap"); assert("sideAccess"@.len() != "slotsNoSwap"@.len()); }
        assert("male"@ != "deathMarker"@) by { reveal_strlit("male"); reveal_strlit("deathMarker"); assert("male"@.len() != "deathMarker"@.len()); }
        assert("male"@ != "homeMarker"@) by { reveal_strlit("male"); reveal_strlit("homeMarker"); assert("male"@.len() != "homeMarker"@.len()); }
        assert("male"@ != "floor"@) by { reveal_strlit("male"); reveal_strlit("floor"); assert("male"@.len() != "floor"@.len()); }
        assert("male"@ != "floorHugging"@) by { reveal_strlit("male"); reveal_strlit("floorHugging"); assert("male"@.len() != "floorHugging"@.len()); }
        assert("male"@ != "wallLayer"@) by { reveal_strlit("male"); reveal_strlit("wallLayer"); assert("male"@.len() != "wallLayer"@.len()); }
        assert("male"@ != "creationSoundInitialOnly"@) by { reveal_strlit("male"); reveal_strlit("creationSoundInitialOnly"); assert("male"@.len() != "creationSoundInitialOnly"@.len()); }
        assert("male"@ != "creationSoundForce"@) by { reveal_strlit("male"); reveal_strlit("creationSoundForce"); assert("male"@.len() != "creationSoundForce"@.len()); }
        assert("male"@ != "slotsLocked"@) by { reveal_strlit("male"); reveal_strlit("slotsLocked"); assert("male"@.len() != "slotsLocked"@.len()); }
        assert("male"@ != "slotsNoSwap"@) by { reveal_strlit("male"); reveal_strlit("slotsNoSwap"); assert("male"@.len() != "slotsNoSwap"@.len()); }
        assert("deathMarker"@ != "homeMarker"@) by { reveal_strlit("deathMarker"); reveal_strlit("homeMarker"); assert("deathMarker"@.len() != "homeMarker"@.len()); }
        assert("deathMarker"@ != "floor"@) by { reveal_strlit("deathMarker"); reveal_strlit("floor"); assert("deathMarker"@.len() != "floor"@.len()); }
        assert("deathMarker"@ != "floorHugging"@) by { reveal_strlit("deathMarker"); reveal_strlit("floorHugging"); assert("deathMarker"@.len() != "floorHugging"@.len()); }
        assert("deathMarker"@ != "wallLayer"@) by { reveal_strlit("deathMarker"); reveal_strlit("wallLayer"); assert("deathMarker"@.len() != "wallLayer"@.len()); }
        assert("deathMarker"@ != "creationSoundInitialOnly"@) by { reveal_strlit("deathMarker"); reveal_strlit("creationSoundInitialOnly"); assert("deathMarker"@.len() != "creationSoundInitialOnly"@.len()); }
        assert("deathMarker"@ != "creationSoundForce"@) by { reveal_strlit("deathMarker"); reveal_strlit("creationSoundForce"); assert("deathMarker"@.len() != "creationSoundForce"@.len()); }
        assert("deathMarker"@ != "slotsLocked"@) by { reveal_strlit("deathMarker"); reveal_strlit("slotsLocked"); assert("deathMarker"@[0] != "slotsLocked"@[0]); }
        assert("deathMarker"@ != "slotsNoSwap"@) by { reveal_strlit("deathMarker"); reveal_strlit("slotsNoSwap"); assert("deathMarker"@[0] != "slotsNoSwap"@[0]); }
        assert("homeMarker"@ != "floor"@) by { reveal_strlit("homeMarker"); reveal_strlit("floor"); assert("homeMarker"@.len() != "floor"@.len()); }
        assert("homeMarker"@ != "floorHugging"@) by { reveal_strlit("homeMarker"); reveal_strlit("floorHugging"); assert("homeMarker"@.len() != "floorHugging"@.len()); }
        assert("homeMarker"@ != "wallLayer"@) by { reveal_strlit("homeMarker"); reveal_strlit("wallLayer"); assert("homeMarker"@.len() != "wallLayer"@.len()); }
        assert("homeMarker"@ != "creationSoundInitialOnly"@) by { reveal_strlit("homeMarker"); reveal_strlit("creationSoundInitialOnly"); assert("homeMarker"@.len() != "creationSoundInitialOnly"@.len()); }
        assert("homeMarker"@ != "creationSoundForce"@) by { reveal_strlit("homeMarker"); reveal_strlit("creationSoundForce"); assert("homeMarker"@.len() != "creationSoundForce"@.len()); }
        assert("homeMarker"@ != "slotsLocked"@) by { reveal_strlit("homeMarker"); reveal_strlit("slotsLocked"); assert("homeMarker"@.len() != "slotsLocked"@.len()); }
        assert("homeMarker"@ != "slotsNoSwap"@) by { reveal_strlit("homeMarker"); reveal_strlit("slotsNoSwap"); assert("homeMarker"@.len() != "slotsNoSwap"@.len()); }
        assert("floor"@ != "floorHugging"@) by { reveal_strlit("floor"); reveal_strlit("floorHugging"); assert("floor"@.len() != "floorHugging"@.len()); }
        assert("floor"@ != "wallLayer"@) by { reveal_strlit("floor"); reveal_strlit("wallLayer"); assert("floor"@.len() != "wallLayer"@.len()); }
        assert("floor"@ != "creationSoundInitialOnly"@) by { reveal_strlit("floor"); reveal_strlit("creationSoundInitialOnly"); assert("floor"@.len() != "creationSoundInitialOnly"@.len()); }
        assert("floor"@ != "creationSoundForce"@) by { reveal_strlit("floor"); reveal_strlit("creationSoundForce"); assert("floor"@.len() != "creationSoundForce"@.len()); }
        assert("floor"@ != "slotsLocked"@) by { reveal_strlit("floor"); reveal_strlit("slotsLocked"); assert("floor"@.len() != "slotsLocked"@.len()); }
        assert("floor"@ != "slotsNoSwap"@) by { reveal_strlit("floor"); reveal_strlit("slotsNoSwap"); assert("floor"@.len() != "slotsNoSwap"@.len()); }
        assert("floorHugging"@ != "wallLayer"@) by { reveal_strlit("floorHugging"); reveal_strlit("wallLayer"); assert("floorHugging"@.len() != "wallLayer"@.len()); }
        assert("floorHugging"@ != "creationSoundInitialOnly"@) by { reveal_strlit("floorHugging"); reveal_strlit("creationSoundInitialOnly"); assert("floorHugging"@.len() != "creationSoundInitialOnly"@.len()); }
        assert("floorHugging"@ != "creationSoundForce"@) by { reveal_strlit("floorHugging"); reveal_strlit("creationSoundForce"); assert("floorHugging"@.len() != "creationSoundForce"@.len()); }
        assert("floorHugging"@ != "slotsLocked"@) by { reveal_strlit("floorHugging"); reveal_strlit("slotsLocked"); assert("floorHugging"@.len() != "slotsLocked"@.len()); }
        assert("floorHugging"@ != "slotsNoSwap"@) by { reveal_strlit("floorHugging"); reveal_strlit("slotsNoSwap"); assert("floorHugging"@.len() != "slotsNoSwap"@.len()); }
        assert("wallLayer"@ != "creationSoundInitialOnly"@) by { reveal_strlit("wallLayer"); reveal_strlit("creationSoundInitialOnly"); assert("wallLayer"@.len() != "creationSoundInitialOnly"@.len()); }
        assert("wallLayer"@ != "creationSoundForce"@) by { reveal_strlit("wallLayer"); reveal_strlit("creationSoundForce"); assert("wallLayer"@.len() != "creationSoundForce"@.len()); }
        assert("wallLayer"@ != "slotsLocked"@) by { reveal_strlit("wallLayer"); reveal_strlit("slotsLocked"); assert("wallLayer"@.len() != "slotsLocked"@.len()); }
        assert("wallLayer"@ != "slotsNoSwap"@) by { reveal_strlit("wallLayer"); reveal_strlit("slotsNoSwap"); assert("wallLayer"@.len() != "slotsNoSwap"@.len()); }
        assert("creationSoundInitialOnly"@ != "creationSoundForce"@) by { reveal_strlit("creationSoundInitialOnly"); reveal_strlit("creationSoundForce"); assert("creationSoundInitialOnly"@.len() != "creationSoundForce"@.len()); }
        assert("creationSoundInitialOnly"@ != "slotsLocked"@) by { reveal_strlit("creationSoundInitialOnly"); reveal_strlit("slotsLocked"); assert("creationSoundInitialOnly"@.len() != "slotsLocked"@.len()); }
        assert("creationSoundInitialOnly"@ != "slotsNoSwap"@) by { reveal_strlit("creationSoundInitialOnly"); reveal_strlit("slotsNoSwap"); assert("creationSoundInitialOnly"@.len() != "slotsNoSwap"@.len()); }
        assert("creationSoundForce"@ != "slotsLocked"@) by { reveal_strlit("creationSoundForce"); reveal_strlit("slotsLocked"); assert("creationSoundForce"@.len() != "slotsLocked"@.len()); }
        assert("creationSoundForce"@ != "slotsNoSwap"@) by { reveal_strlit("creationSoundForce"); reveal_strlit("slotsNoSwap"); assert("creationSoundForce"@.len() != "slotsNoSwap"@.len()); }
        assert("slotsLocked"@ != "slotsNoSwap"@) by { reveal_strlit("slotsLocked"); reveal_strlit("slotsNoSwap"); assert("slotsLocked"@[5] != "slotsNoSwap"@[5]); }
    }
    let (na, nb) = name;
    let (va, vb) = value;
    let (la, lb) = line;
    if eq_word(s, na, nb, "containable") {
        o.containable = Some(!eq_word(s, va, vb, "0"));
    } else if eq_word(s, na, nb, "noFlip") {
        o.noFlip = Some(!eq_word(s, va, vb, "0"));
    } else if eq_word(s, na, nb, "sideAccess") {
        o.sideAccess = Some(!eq_word(s, va, vb, "0"));
    } else if eq_word(s, na, nb, "male") {
        o.male = Some(!eq_word(s, va, vb, "0"));
    } else if eq_word(s, na, nb, "deathMarker") {
        o.deathMarker = Some(!eq_word(s, va, vb, "0"));
    } else if eq_word(s, na, nb, "homeMarker") {
        o.homeMarker = Some(!eq_word(s, va, vb, "0"));
    } else if eq_word(s, na, nb, "floor") {
        o.floor = Some(!eq_word(s, va, vb, "0"));
    } else if eq_word(s, na, nb, "floorHugging") {
        o.floorHugging = Some(!eq_word(s, va, vb, "0"));
    } else if eq_word(s, na, nb, "wallLayer") {
        o.wallLayer = Some(!eq_word(s, va, vb, "0"));
    } else if eq_word(s, na, nb, "creationSoundInitialOnly") {
        o.creationSoundInitialOnly = Some(!eq_word(s, va, vb, "0"));
    } else if eq_word(s, na, nb, "creationSoundForce") {
        o.creationSoundForce = Some(!eq_word(s, va, vb, "0"));
    } else if eq_word(s, na, nb, "slotsLocked") {
        o.slotsLocked = Some(!eq_word(s, va, vb, "0"));
    } else if eq_word(s, na, nb, "slotsNoSwap") {
        o.slotsNoSwap = Some(!eq_word(s, va, vb, "0"));
    } else {
        return Ok(false);
    }
    Ok(true)
}

fn apply_int(
    o: &mut OneLifeDataObject,
    s: &Vec<char>,
    name: (usize, usize),
    value: (usize, usize),
    line: (usize, usize),
) -> (r: Result<bool, FormatError>)
    requires
        old(o).wf(),
        name.0 <= name.1 <= s@.len(),
        value.0 <= value.1 <= s@.len(),
        line.0 <= line.1 <= s@.len(),
    ensures
        final(o).wf(),
        final(o).id == old(o).id,
        final(o).name == old(o).name,
        final(o).sprites == old(o).sprites,
        final(o).slotPosData == old(o).slotPosData,
        r is Err <==> fails_int(s@.subrange(name.0 as int, name.1 as int), s@.subrange(value.0 as int, value.1 as int), s@.subrange(line.0 as int, line.1 as int)),
        final(o).containable == old(o).containable,
        final(o).containSize == old(o).containSize,
        final(o).permanent == old(o).permanent,
        final(o).noFlip == old(o).noFlip,
        final(o).sideAccess == old(o).sideAccess,
        s@.subrange(name.0 as int, name.1 as int) == "heldInHand"@ && r is Ok ==> int_of_i8(final(o).heldInHand) == parse_int_within(s@.subrange(value.0 as int, value.1 as int), -128, 127),
        s@.subrange(name.0 as int, name.1 as int) != "heldInHand"@ ==> final(o).heldInHand == old(o).heldInHand,
        s@.subrange(name.0 as int, name.1 as int) == "ridingAnimationIndex"@ && r is Ok ==> widen32(final(o).ridingAnimationIndex) == parse_int_within(s@.subrange(value.0 as int, value.1 as int), i32::MIN as int, i32::MAX as int),
        s@.subrange(name.0 as int, name.1 as int) != "ridingAnimationIndex"@ ==> final(o).ridingAnimationIndex == old(o).ridingAnimationIndex,
        final(o).blocksWalking == old(o).blocksWalking,
        final(o).mapChance == old(o).mapChance,
        s@.subrange(name.0 as int, name.1 as int) == "heatValue"@ && r is Ok ==> widen32(final(o).heatValue) == parse_int_within(s@.subrange(value.0 as int, value.1 as int), i32::MIN as int, i32::MAX as int),
        s@.subrange(name.0 as int, name.1 as int) != "heatValue"@ ==> final(o).heatValue == old(o).heatValue,
        final(o).rValue == old(o).rValue,
        final(o).person == old(o).person,
        final(o).male == old(o).male,
        final(o).deathMarker == old(o).deathMarker,
        final(o).homeMarker == old(o).homeMarker,
        final(o).floor == old(o).floor,
        s@.subrange(name.0 as int, name.1 as int) == "partialFloor"@ && r is Ok ==> int_of_i8(final(o).partialFloor) == parse_int_within(s@.subrange(value.0 as int, value.1 as int), -128, 127),
        s@.subrange(name.0 as int, name.1 as int) != "partialFloor"@ ==> final(o).partialFloor == old(o).partialFloor,
        final(o).floorHugging == old(o).floorHugging,
        final(o).wallLayer == old(o).wallLayer,
        s@.subrange(name.0 as int, name.1 as int) == "frontWall"@ && r is Ok ==> widen32(final(o).frontWall) == parse_int_within(s@.subrange(value.0 as int, value.1 as int), i32::MIN as int, i32::MAX as int),
        s@.subrange(name.0 as int, name.1 as int) != "frontWall"@ ==> final(o).frontWall == old(o).frontWall,
        final(o).foodValue == old(o).foodValue,
        final(o).speedMult == old(o).speedMult,
        final(o).containOffset == old(o).containOffset,
        final(o).heldOffset == old(o).heldOffset,
        final(o).clothing == old(o).clothing,
        final(o).clothingOffset == old(o).clothingOffset,
        s@.subrange(name.0 as int, name.1 as int) == "deadlyDistance"@ && r is Ok ==> widen32(final(o).deadlyDistance) == parse_int_within(s@.subrange(value.0 as int, value.1 as int), i32::MIN as int, i32::MAX as int),
        s@.subrange(name.0 as int, name.1 as int) != "deadlyDistance"@ ==> final(o).deadlyDistance == old(o).deadlyDistance,
        s@.subrange(name.0 as int, name.1 as int) == "useDistance"@ && r is Ok ==> widen32(final(o).useDistance) == parse_int_within(s@.subrange(value.0 as int, value.1 as int), i32::MIN as int, i32::MAX as int),
        s@.subrange(name.0 as int, name.1 as int) != "useDistance"@ ==> final(o).useDistance == old(o).useDistance,
        final(o).sounds == old(o).sounds,
        final(o).creationSoundInitialOnly == old(o).creationSoundInitialOnly,
        final(o).creationSoundForce == old(o).creationSoundForce,
        final(o).numSlots == old(o).numSlots,
        final(o).slotSize == old(o).slotSize,
        s@.subrange(name.0 as int, name.1 as int) == "slotStyle"@ && r is Ok ==> widen32(final(o).slotStyle) == parse_int_within(s@.subrange(value.0 as int, value.1 as int), i32::MIN as int, i32::MAX as int),
        s@.subrange(name.0 as int, name.1 as int) != "slotStyle"@ ==> final(o).slotStyle == old(o).slotStyle,
        final(o).slotsLocked == old(o).slotsLocked,
        final(o).slotsNoSwap == old(o).slotsNoSwap,
        s@.subrange(name.0 as int, name.1 as int) == "numSprites"@ && r is Ok ==> widen32(final(o).numSprites) == parse_int_within(s@.subrange(value.0 as int, value.1 as int), i32::MIN as int, i32::MAX as int),
        s@.subrange(name.0 as int, name.1 as int) != "numSprites"@ ==> final(o).numSprites == old(o).numSprites,
        final(o).headIndex == old(o).headIndex,
        final(o).bodyIndex == old(o).bodyIndex,
        final(o).backFootIndex == old(o).backFootIndex,
        final(o).frontFootIndex == old(o).frontFootIndex,
        final(o).numUses == old(o).numUses,
        final(o).useVanishIndex == old(o).useVanishIndex,
        final(o).useAppearIndex == old(o).useAppearIndex,
        s@.subrange(name.0 as int, name.1 as int) == "pixHeight"@ && r is Ok ==> widen32(final(o).pixHeight) == parse_int_within(s@.subrange(value.0 as int, value.1 as int), i32::MIN as int, i32::MAX as int),
        s@.subrange(name.0 as int, name.1 as int) != "pixHeight"@ ==> final(o).pixHeight == old(o).pixHeight,
{
    proof {
        assert("heldInHand"@ != "ridingAnimationIndex"@) by { reveal_strlit("heldInHand"); reveal_strlit("ridingAnimationIndex"); assert("heldInHand"@.len() != "ridingAnimationIndex"@.len()); }
        assert("heldInHand"@ != "heatValue"@) by { reveal_strlit("heldInHand"); reveal_strlit("heatValue"); assert("heldInHand"@.len() != "heatValue"@.len()); }
        assert("heldInHand"@ != "partialFloor"@) by { reveal_strlit("heldInHand"); reveal_strlit("partialFloor"); assert("heldInHand"@.len() != "partialFloor"@.len()); }
        assert("heldInHand"@ != "frontWall"@) by { reveal_strlit("heldInHand"); reveal_strlit("frontWall"); assert("heldInHand"@.len() != "frontWall"@.len()); }
        assert("heldInHand"@ != "deadlyDistance"@) by { reveal_strlit("heldInHand"); reveal_strlit("deadlyDistance"); assert("heldInHand"@.len() != "deadlyDistance"@.len()); }
        assert("heldInHand"@ != "useDistance"@) by { reveal_strlit("heldInHand"); reveal_strlit("useDistance"); assert("heldInHand"@.len() != "useDistance"@.len()); }
        assert("heldInHand"@ != "slotStyle"@) by { reveal_strlit("heldInHand"); reveal_strlit("slotStyle"); assert("heldInHand"@.len() != "slotStyle"@.len()); }
        assert("heldInHand"@ != "numSprites"@) by { reveal_strlit("heldInHand"); reveal_strlit("numSprites"); assert("heldInHand"@[0] != "numSprites"@[0]); }
        assert("heldInHand"@ != "pixHeight"@) by { reveal_strlit("heldInHand"); reveal_strlit("pixHeight"); assert("heldInHand"@.len() != "pixHeight"@.len()); }
        assert("ridingAnimationIndex"@ != "heatValue"@) by { reveal_strlit("ridingAnimationIndex"); reveal_strlit("heatValue"); assert("ridingAnimationIndex"@.len() != "heatValue"@.len()); }
        assert("ridingAnimationIndex"@ != "partialFloor"@) by { reveal_strlit("ridingAnimationIndex"); reveal_strlit("partialFloor"); assert("ridingAnimationIndex"@.len() != "partialFloor"@.len()); }
        assert("ridingAnimationIndex"@ != "frontWall"@) by { reveal_strlit("ridingAnimationIndex"); reveal_strlit("frontWall"); assert("ridingAnimationIndex"@.len() != "frontWall"@.len()); }
        assert("ridingAnimationIndex"@ != "deadlyDistance"@) by { reveal_strlit("ridingAnimationIndex"); reveal_strlit("deadlyDistance"); assert("ridingAnimationIndex"@.len() != "deadlyDistance"@.len()); }
        assert("ridingAnimationIndex"@ != "useDistance"@) by { reveal_strlit("ridingAnimationIndex"); reveal_strlit("useDistance"); assert("ridingAnimationIndex"@.len() != "useDistance"@.len()); }
        assert("ridingAnimationIndex"@ != "slotStyle"@) by { reveal_strlit("ridingAnimationIndex"); reveal_strlit("slotStyle"); assert("ridingAnimationIndex"@.len() != "slotStyle"@.len()); }
        assert("ridingAnimationIndex"@ != "numSprites"@) by { reveal_strlit("ridingAnimationIndex"); reveal_strlit("numSprites"); assert("ridingAnimationIndex"@.len() != "numSprites"@.len()); }
        assert("ridingAnimationIndex"@ != "pixHeight"@) by { reveal_strlit("ridingAnimationIndex"); reveal_strlit("pixHeight"); assert("ridingAnimationIndex"@.len() != "pixHeight"@.len()); }
        assert("heatValue"@ != "partialFloor"@) by { reveal_strlit("heatValue"); reveal_strlit("partialFloor"); assert("heatValue"@.len() != "partialFloor"@.len()); }
        assert("heatValue"@ != "frontWall"@) by { reveal_strlit("heatValue"); reveal_strlit("frontWall"); assert("heatValue"@[0] != "frontWall"@[0]); }
        assert("heatValue"@ != "deadlyDistance"@) by { reveal_strlit("heatValue"); reveal_strlit("deadlyDistance"); assert("heatValue"@.len() != "deadlyDistance"@.len()); }
        assert("heatValue"@ != "useDistance"@) by { reveal_strlit("heatValue"); reveal_strlit("useDistance"); assert("heatValue"@.len() != "useDistance"@.len()); }
        assert("heatValue"@ != "slotStyle"@) by { reveal_strlit("heatValue"); reveal_strlit("slotStyle"); assert("heatValue"@[0] != "slotStyle"@[0]); }
        assert("heatValue"@ != "numSprites"@) by { reveal_strlit("heatValue"); reveal_strlit("numSprites"); assert("heatValue"@.len() != "numSprites"@.len()); }
        assert("heatValue"@ != "pixHeight"@) by { reveal_strlit("heatValue"); reveal_strlit("pixHeight"); assert("heatValue"@[0] != "pixHeight"@[0]); }
        assert("partialFloor"@ != "frontWall"@) by { reveal_strlit("partialFloor"); reveal_strlit("frontWall"); assert("partialFloor"@.len() != "frontWall"@.len()); }
        assert("partialFloor"@ != "deadlyDistance"@) by { reveal_strlit("partialFloor"); reveal_strlit("deadlyDistance"); assert("partialFloor"@.len() != "deadlyDistance"@.len()); }
        assert("partialFloor"@ != "useDistance"@) by { reveal_strlit("partialFloor"); reveal_strlit("useDistance"); assert("partialFloor"@.len() != "useDistance"@.len()); }
        assert("partialFloor"@ != "slotStyle"@) by { reveal_strlit("partialFloor"); reveal_strlit("slotStyle"); assert("partialFloor"@.len() != "slotStyle"@.len()); }
        assert("partialFloor"@ != "numSprites"@) by { reveal_strlit("partialFloor"); reveal_strlit("numSprites"); assert("partialFloor"@.len() != "numSprites"@.len()); }
        assert("partialFloor"@ != "pixHeight"@) by { reveal_strlit("partialFloor"); reveal_strlit("pixHeight"); assert("partialFloor"@.len() != "pixHeight"@.len()); }
        assert("frontWall"@ != "deadlyDistance"@) by { reveal_strlit("frontWall"); reveal_strlit("deadlyDistance"); assert("frontWall"@.len() != "deadlyDistance"@.len()); }
        assert("frontWall"@ != "useDistance"@) by { reveal_strlit("frontWall"); reveal_strlit("useDistance"); assert("frontWall"@.len() != "useDistance"@.len()); }
        assert("frontWall"@ != "slotStyle"@) by { reveal_strlit("frontWall"); reveal_strlit("slotStyle"); assert("frontWall"@[0] != "slotStyle"@[0]); }
        assert("frontWall"@ != "numSprites"@) by { reveal_strlit("frontWall"); reveal_strlit("numSprites"); assert("frontWall"@.len() != "numSprites"@.len()); }
        assert("frontWall"@ != "pixHeight"@) by { reveal_strlit("frontWall"); reveal_strlit("pixHeight"); assert("frontWall"@[0] != "pixHeight"@[0]); }
        assert("deadlyDistance"@ != "useDistance"@) by { reveal_strlit("deadlyDistance"); reveal_strlit("useDistance"); assert("deadlyDistance"@.len() != "useDistance"@.len()); }
        assert("deadlyDistance"@ != "slotStyle"@) by { reveal_strlit("deadlyDistance"); reveal_strlit("slotStyle"); assert("deadlyDistance"@.len() != "slotStyle"@.len()); }
        assert("deadlyDistance"@ != "numSprites"@) by { reveal_strlit("deadlyDistance"); reveal_strlit("numSprites"); assert("deadlyDistance"@.len() != "numSprites"@.len()); }
        assert("deadlyDistance"@ != "pixHeight"@) by { reveal_strlit("deadlyDistance"); reveal_strlit("pixHeight"); assert("deadlyDistance"@.len() != "pixHeight"@.len()); }
        assert("useDistance"@ != "slotStyle"@) by { reveal_strlit("useDistance"); reveal_strlit("slotStyle"); assert("useDistance"@.len() != "slotStyle"@.len()); }
        assert("useDistance"@ != "numSprites"@) by { reveal_strlit("useDistance"); reveal_strlit("numSprites"); assert("useDistance"@.len() != "numSprites"@.len()); }
        assert("useDistance"@ != "pixHeight"@) by { reveal_strlit("useDistance"); reveal_strlit("pixHeight"); assert("useDistance"@.len() != "pixHeight"@.len()); }
        assert("slotStyle"@ != "numSprites"@) by { reveal_strlit("slotStyle"); reveal_strlit("numSprites"); assert("slotStyle"@.len() != "numSprites"@.len()); }
        assert("slotStyle"@ != "pixHeight"@) by { reveal_strlit("slotStyle"); reveal_strlit("pixHeight"); assert("slotStyle"@[0] != "pixHeight"@[0]); }
        assert("numSprites"@ != "pixHeight"@) by { reveal_strlit("numSprites"); reveal_strlit("pixHeight"); assert("numSprites"@.len() != "pixHeight"@.len()); }
    }
    let (na, nb) = name;
    let (va, vb) = value;
    let (la, lb) = line;
    if eq_word(s, na, nb, "heldInHand") {
        match read_int(s, va, vb, -128, 127) {
            Some(x) => o.heldInHand = Some(x as i8),
            None => return Err(FormatError::Malformed),
        }
    } else if eq_word(s, na, nb, "ridingAnimationIndex") {
        match read_int(s, va, vb, i32::MIN as i64, i32::MAX as i64) {
            Some(x) => o.ridingAnimationIndex = Some(x as i32),
            None => return Err(FormatError::Malformed),
        }
    } else if eq_word(s, na, nb, "heatValue") {
        match read_int(s, va, vb, i32::MIN as i64, i32::MAX as i64) {
            Some(x) => o.heatValue = Some(x as i32),
            None => return Err(FormatError::Malformed),
        }
    } else if eq_word(s, na, nb, "partialFloor") {
        match read_int(s, va, vb, -128, 127) {
            Some(x) => o.partialFloor = Some(x as i8),
            None => return Err(FormatError::Malformed),
        }
    } else if eq_word(s, na, nb, "frontWall") {
        match read_int(s, va, vb, i32::MIN as i64, i32::MAX as i64) {
            Some(x) => o.frontWall = Some(x as i32),
            None => return Err(FormatError::Malformed),
        }
    } else if eq_word(s, na, nb, "deadlyDistance") {
        match read_int(s, va, vb, i32::MIN as i64, i32::MAX as i64) {
            Some(x) => o.deadlyDistance = Some(x as i32),
            None => return Err(FormatError::Malformed),
        }
    } else if eq_word(s, na, nb, "useDistance") {
        match read_int(s, va, vb, i32::MIN as i64, i32::MAX as i64) {
            Some(x) => o.useDistance = Some(x as i32),
            None => return Err(FormatError::Malformed),
        }
    } else if eq_word(s, na, nb, "slotStyle") {
        match read_int(s, va, vb, i32::MIN as i64, i32::MAX as i64) {
            Some(x) => o.slotStyle = Some(x as i32),
            None => return Err(FormatError::Malformed),
        }
    } else if eq_word(s, na, nb, "pixHeight") {
        match read_int(s, va, vb, i32::MIN as i64, i32::MAX as i64) {
            Some(x) => o.pixHeight = Some(x as i32),
            None => return Err(FormatError::Malformed),
        }
    } else if eq_word(s, na, nb, "numSprites") {
        match read_int(s, va, vb, i32::MIN as i64, i32::MAX as i64) {
            Some(x) => o.numSprites = Some(x as i32),
            None => return Err(FormatError::Malformed),
        }
    } else {
        return Ok(false);
    }
    Ok(true)
}

fn apply_misc(
    o: &mut OneLifeDataObject,
    s: &Vec<char>,
    name: (usize, usize),
    value: (usize, usize),
    line: (usize, usize),
) -> (r: Result<bool, FormatError>)
    requires
        old(o).wf(),
        name.0 <= name.1 <= s@.len(),
        value.0 <= value.1 <= s@.len(),
        line.0 <= line.1 <= s@.len(),
    ensures
        final(o).wf(),
        final(o).id == old(o).id,
        final(o).name == old(o).name,
        final(o).sprites == old(o).sprites,
        final(o).slotPosData == old(o).slotPosData,
        r is Err <==> fails_misc(s@.subrange(name.0 as int, name.1 as int), s@.subrange(value.0 as int, value.1 as int), s@.subrange(line.0 as int, line.1 as int)),
        final(o).containable == old(o).containable,
        final(o).containSize == old(o).containSize,
        final(o).permanent == old(o).permanent,
        final(o).noFlip == old(o).noFlip,
        final(o).sideAccess == old(o).sideAccess,
        final(o).heldInHand == old(o).heldInHand,
        final(o).ridingAnimationIndex == old(o).ridingAnimationIndex,
        final(o).blocksWalking == old(o).blocksWalking,
        final(o).mapChance == old(o).mapChance,
        final(o).heatValue == old(o).heatValue,
        s@.subrange(name.0 as int, name.1 as int) == "rValue"@ && r is Ok ==> final(o).rValue == fixed_of(s@.subrange(value.0 as int, value.1 as int)),
        s@.subrange(name.0 as int, name.1 as int) != "rValue"@ ==> final(o).rValue == old(o).rValue,
        final(o).person == old(o).person,
        final(o).male == old(o).male,
        final(o).deathMarker == old(o).deathMarker,
        final(o).homeMarker == old(o).homeMarker,
        final(o).floor == old(o).floor,
        final(o).partialFloor == old(o).partialFloor,
        final(o).floorHugging == old(o).floorHugging,
        final(o).wallLayer == old(o).wallLayer,
        final(o).frontWall == old(o).frontWall,
        s@.subrange(name.0 as int, name.1 as int) == "foodValue"@ && r is Ok ==> ints_view(final(o).foodValue) == Some(lenient_ints(split(s@.subrange(value.0 as int, value.1 as int), ','), i32::MIN as int, i32::MAX as int)),
        s@.subrange(name.0 as int, name.1 as int) != "foodValue"@ ==> final(o).foodValue == old(o).foodValue,
        s@.subrange(name.0 as int, name.1 as int) == "speedMult"@ && r is Ok ==> final(o).speedMult == fixed_of(s@.subrange(value.0 as int, value.1 as int)),
        s@.subrange(name.0 as int, name.1 as int) != "speedMult"@ ==> final(o).speedMult == old(o).speedMult,
        s@.subrange(name.0 as int, name.1 as int) == "containOffset"@ && r is Ok ==> final(o).containOffset == I32Pair::parse(s@.subrange(value.0 as int, value.1 as int)),
        s@.subrange(name.0 as int, name.1 as int) != "containOffset"@ ==> final(o).containOffset == old(o).containOffset,
        s@.subrange(name.0 as int, name.1 as int) == "heldOffset"@ && r is Ok ==> final(o).heldOffset == DoublePair::parse(s@.subrange(value.0 as int, value.1 as int)),
        s@.subrange(name.0 as int, name.1 as int) != "heldOffset"@ ==> final(o).heldOffset == old(o).heldOffset,
        final(o).clothing == old(o).clothing,
        s@.subrange(name.0 as int, name.1 as int) == "clothingOffset"@ && r is Ok ==> final(o).clothingOffset == DoublePair::parse(s@.subrange(value.0 as int, value.1 as int)),
        s@.subrange(name.0 as int, name.1 as int) != "clothingOffset"@ ==> final(o).clothingOffset == old(o).clothingOffset,
        final(o).deadlyDistance == old(o).deadlyDistance,
        final(o).useDistance == old(o).useDistance,
        final(o).sounds == old(o).sounds,
        final(o).creationSoundInitialOnly == old(o).creationSoundInitialOnly,
        final(o).creationSoundForce == old(o).creationSoundForce,
        final(o).numSlots == old(o).numSlots,
        s@.subrange(name.0 as int, name.1 as int) == "slotSize"@ && r is Ok ==> final(o).slotSize == fixed_of(s@.subrange(value.0 as int, value.1 as int)),
        s@.subrange(name.0 as int, name.1 as int) != "slotSize"@ ==> final(o).slotSize == old(o).slotSize,
        final(o).slotStyle == old(o).slotStyle,
        final(o).slotsLocked == old(o).slotsLocked,
        final(o).slotsNoSwap == old(o).slotsNoSwap,
        final(o).numSprites == old(o).numSprites,
        s@.subrange(name.0 as int, name.1 as int) == "headIndex"@ && r is Ok ==> ints_view(final(o).headIndex) == Some(lenient_ints(split(s@.subrange(value.0 as int, value.1 as int), ','), i32::MIN as int, i32::MAX as int)),
        s@.subrange(name.0 as int, name.1 as int) != "headIndex"@ ==> final(o).headIndex == old(o).headIndex,
        s@.subrange(name.0 as int, name.1 as int) == "bodyIndex"@ && r is Ok ==> ints_view(final(o).bodyIndex) == Some(lenient_ints(split(s@.subrange(value.0 as int, value.1 as int), ','), i32::MIN as int, i32::MAX as int)),
        s@.subrange(name.0 as int, name.1 as int) != "bodyIndex"@ ==> final(o).bodyIndex == old(o).bodyIndex,
        s@.subrange(name.0 as int, name.1 as int) == "backFootIndex"@ && r is Ok ==> ints_view(final(o).backFootIndex) == Some(lenient_ints(split(s@.subrange(value.0 as int, value.1 as int), ','), i32::MIN as int, i32::MAX as int)),
        s@.subrange(name.0 as int, name.1 as int) != "backFootIndex"@ ==> final(o).backFootIndex == old(o).backFootIndex,
        s@.subrange(name.0 as int, name.1 as int) == "frontFootIndex"@ && r is Ok ==> ints_view(final(o).frontFootIndex) == Some(lenient_ints(split(s@.subrange(value.0 as int, value.1 as int), ','), i32::MIN as int, i32::MAX as int)),
        s@.subrange(name.0 as int, name.1 as int) != "frontFootIndex"@ ==> final(o).frontFootIndex == old(o).frontFootIndex,
        final(o).numUses == old(o).numUses,
        s@.subrange(name.0 as int, name.1 as int) == "useVanishIndex"@ && r is Ok ==> ints_view(final(o).useVanishIndex) == Some(lenient_ints(split(s@.subrange(value.0 as int, value.1 as int), ','), i32::MIN as int, i32::MAX as int)),
        s@.subrange(name.0 as int, name.1 as int) != "useVanishIndex"@ ==> final(o).useVanishIndex == old(o).useVanishIndex,
        s@.subrange(name.0 as int, name.1 as int) == "useAppearIndex"@ && r is Ok ==> ints_view(final(o).useAppearIndex) == Some(lenient_ints(split(s@.subrange(value.0 as int, value.1 as int), ','), i32::MIN as int, i32::MAX as int)),
        s@.subrange(name.0 as int, name.1 as int) != "useAppearIndex"@ ==> final(o).useAppearIndex == old(o).useAppearIndex,
        final(o).pixHeight == old(o).pixHeight,
{
    proof {
        assert("rValue"@ != "foodValue"@) by { reveal_strlit("rValue"); reveal_strlit("foodValue"); assert("rValue"@.len() != "foodValue"@.len()); }
        assert("rValue"@ != "speedMult"@) by { reveal_strlit("rValue"); reveal_strlit("speedMult"); assert("rValue"@.len() != "speedMult"@.len()); }
        assert("rValue"@ != "containOffset"@) by { reveal_strlit("rValue"); reveal_strlit("containOffset"); assert("rValue"@.len() != "containOffset"@.len()); }
        assert("rValue"@ != "heldOffset"@) by { reveal_strlit("rValue"); reveal_strlit("heldOffset"); assert("rValue"@.len() != "heldOffset"@.len()); }
        assert("rValue"@ != "clothingOffset"@) by { reveal_strlit("rValue"); reveal_strlit("clothingOffset"); assert("rValue"@.len() != "clothingOffset"@.len()); }
        assert("rValue"@ != "slotSize"@) by { reveal_strlit("rValue"); reveal_strlit("slotSize"); assert("rValue"@.len() != "slotSize"@.len()); }
        assert("rValue"@ != "headIndex"@) by { reveal_strlit("rValue"); reveal_strlit("headIndex"); assert("rValue"@.len() != "headIndex"@.len()); }
        assert("rValue"@ != "bodyIndex"@) by { reveal_strlit("rValue"); reveal_strlit("bodyIndex"); assert("rValue"@.len() != "bodyIndex"@.len()); }
        assert("rValue"@ != "backFootIndex"@) by { reveal_strlit("rValue"); reveal_strlit("backFootIndex"); assert("rValue"@.len() != "backFootIndex"@.len()); }
        assert("rValue"@ != "frontFootIndex"@) by { reveal_strlit("rValue"); reveal_strlit("frontFootIndex"); assert("rValue"@.len() != "frontFootIndex"@.len()); }
        assert("rValue"@ != "useVanishIndex"@) by { reveal_strlit("rValue"); reveal_strlit("useVanishIndex"); assert("rValue"@.len() != "useVanishIndex"@.len()); }
        assert("rValue"@ != "useAppearIndex"@) by { reveal_strlit("rValue"); reveal_strlit("useAppearIndex"); assert("rValue"@.len() != "useAppearIndex"@.len()); }
        assert("foodValue"@ != "speedMult"@) by { reveal_strlit("foodValue"); reveal_strlit("speedMult"); assert("foodValue"@[0] != "speedMult"@[0]); }
        assert("foodValue"@ != "containOffset"@) by { reveal_strlit("foodValue"); reveal_strlit("containOffset"); assert("foodValue"@.len() != "containOffset"@.len()); }
        assert("foodValue"@ != "heldOffset"@) by { reveal_strlit("foodValue"); reveal_strlit("heldOffset"); assert("foodValue"@.len() != "heldOffset"@.len()); }
        assert("foodValue"@ != "clothingOffset"@) by { reveal_strlit("foodValue"); reveal_strlit("clothingOffset"); assert("foodValue"@.len() != "clothingOffset"@.len()); }
        assert("foodValue"@ != "slotSize"@) by { reveal_strlit("foodValue"); reveal_strlit("slotSize"); assert("foodValue"@.len() != "slotSize"@.len()); }
        assert("foodValue"@ != "headIndex"@) by { reveal_strlit("foodValue"); reveal_strlit("headIndex"); assert("foodValue"@[0] != "headIndex"@[0]); }
        assert("foodValue"@ != "bodyIndex"@) by { reveal_strlit("foodValue"); reveal_strlit("bodyIndex"); assert("foodValue"@[0] != "bodyIndex"@[0]); }
        assert("foodValue"@ != "backFootIndex"@) by { reveal_strlit("foodValue"); reveal_strlit("backFootIndex"); assert("foodValue"@.len() != "backFootIndex"@.len()); }
        assert("foodValue"@ != "frontFootIndex"@) by { reveal_strlit("foodValue"); reveal_strlit("frontFootIndex"); assert("foodValue"@.len() != "frontFootIndex"@.len()); }
        assert("foodValue"@ != "useVanishIndex"@) by { reveal_strlit("foodValue"); reveal_strlit("useVanishIndex"); assert("foodValue"@.len() != "useVanishIndex"@.len()); }
        assert("foodValue"@ != "useAppearIndex"@) by { reveal_strlit("foodValue"); reveal_strlit("useAppearIndex"); assert("foodValue"@.len() != "useAppearIndex"@.len()); }
        assert("speedMult"@ != "containOffset"@) by { reveal_strlit("speedMult"); reveal_strlit("containOffset"); assert("speedMult"@.len() != "containOffset"@.len()); }
        assert("speedMult"@ != "heldOffset"@) by { reveal_strlit("speedMult"); reveal_strlit("heldOffset"); assert("speedMult"@.len() != "heldOffset"@.len()); }
        assert("speedMult"@ != "clothingOffset"@) by { reveal_strlit("speedMult"); reveal_strlit("clothingOffset"); assert("speedMult"@.len() != "clothingOffset"@.len()); }
        assert("speedMult"@ != "slotSize"@) by { reveal_strlit("speedMult"); reveal_strlit("slotSize"); assert("speedMult"@.len() != "slotSize"@.len()); }
        assert("speedMult"@ != "headIndex"@) by { reveal_strlit("speedMult"); reveal_strlit("headIndex"); assert("speedMult"@[0] != "headIndex"@[0]); }
        assert("speedMult"@ != "bodyIndex"@) by { reveal_strlit("speedMult"); reveal_strlit("bodyIndex"); assert("speedMult"@[0] != "bodyIndex"@[0]); }
        assert("speedMult"@ != "backFootIndex"@) by { reveal_strlit("speedMult"); reveal_strlit("backFootIndex"); assert("speedMult"@.len() != "backFootIndex"@.len()); }
        assert("speedMult"@ != "frontFootIndex"@) by { reveal_strlit("speedMult"); reveal_strlit("frontFootIndex"); assert("speedMult"@.len() != "frontFootIndex"@.len()); }
        assert("speedMult"@ != "useVanishIndex"@) by { reveal_strlit("speedMult"); reveal_strlit("useVanishIndex"); assert("speedMult"@.len() != "useVanishIndex"@.len()); }
        assert("speedMult"@ != "useAppearIndex"@) by { reveal_strlit("speedMult"); reveal_strlit("useAppearIndex"); assert("speedMult"@.len() != "useAppearIndex"@.len()); }
        assert("containOffset"@ != "heldOffset"@) by { reveal_strlit("containOffset"); reveal_strlit("heldOffset"); assert("containOffset"@.len() != "heldOffset"@.len()); }
        assert("containOffset"@ != "clothingOffset"@) by { reveal_strlit("containOffset"); reveal_strlit("clothingOffset"); assert("containOffset"@.len() != "clothingOffset"@.len()); }
        assert("containOffset"@ != "slotSize"@) by { reveal_strlit("containOffset"); reveal_strlit("slotSize"); assert("containOffset"@.len() != "slotSize"@.len()); }
        assert("containOffset"@ != "headIndex"@) by { reveal_strlit("containOffset"); reveal_strlit("headIndex"); assert("containOffset"@.len() != "headIndex"@.len()); }
        assert("containOffset"@ != "bodyIndex"@) by { reveal_strlit("containOffset"); reveal_strlit("bodyIndex"); assert("containOffset"@.len() != "bodyIndex"@.len()); }
        assert("containOffset"@ != "backFootIndex"@) by { reveal_strlit("containOffset"); reveal_strlit("backFootIndex"); assert("containOffset"@[0] != "backFootIndex"@[0]); }
        assert("containOffset"@ != "frontFootIndex"@) by { reveal_strlit("containOffset"); reveal_strlit("frontFootIndex"); assert("containOffset"@.len() != "frontFootIndex"@.len()); }
        assert("containOffset"@ != "useVanishIndex"@) by { reveal_strlit("containOffset"); reveal_strlit("useVanishIndex"); assert("containOffset"@.len() != "useVanishIndex"@.len()); }
        assert("containOffset"@ != "useAppearIndex"@) by { reveal_strlit("containOffset"); reveal_strlit("useAppearIndex"); assert("containOffset"@.len() != "useAppearIndex"@.len()); }
        assert("heldOffset"@ != "clothingOffset"@) by { reveal_strlit("heldOffset"); reveal_strlit("clothingOffset"); assert("heldOffset"@.len() != "clothingOffset"@.len()); }
        assert("heldOffset"@ != "slotSize"@) by { reveal_strlit("heldOffset"); reveal_strlit("slotSize"); assert("heldOffset"@.len() != "slotSize"@.len()); }
        assert("heldOffset"@ != "headIndex"@) by { reveal_strlit("heldOffset"); reveal_strlit("headIndex"); assert("heldOffset"@.len() != "headIndex"@.len()); }
        assert("heldOffset"@ != "bodyIndex"@) by { reveal_strlit("heldOffset"); reveal_strlit("bodyIndex"); assert("heldOffset"@.len() != "bodyIndex"@.len()); }
        assert("heldOffset"@ != "backFootIndex"@) by { reveal_strlit("heldOffset"); reveal_strlit("backFootIndex"); assert("heldOffset"@.len() != "backFootIndex"@.len()); }
        assert("heldOffset"@ != "frontFootIndex"@) by { reveal_strlit("heldOffset"); reveal_strlit("frontFootIndex"); assert("heldOffset"@.len() != "frontFootIndex"@.len()); }
        assert("heldOffset"@ != "useVanishIndex"@) by { reveal_strlit("heldOffset"); reveal_strlit("useVanishIndex"); assert("heldOffset"@.len() != "useVanishIndex"@.len()); }
        assert("heldOffset"@ != "useAppearIndex"@) by { reveal_strlit("heldOffset"); reveal_strlit("useAppearIndex"); assert("heldOffset"@.len() != "useAppearIndex"@.len()); }
        assert("clothingOffset"@ != "slotSize"@) by { reveal_strlit("clothingOffset"); reveal_strlit("slotSize"); assert("clothingOffset"@.len() != "slotSize"@.len()); }
        assert("clothingOffset"@ != "headIndex"@) by { reveal_strlit("clothingOffset"); reveal_strlit("headIndex"); assert("clothingOffset"@.len() != "headIndex"@.len()); }
        assert("clothingOffset"@ != "bodyIndex"@) by { reveal_strlit("clothingOffset"); reveal_strlit("bodyIndex"); assert("clothingOffset"@.len() != "bodyIndex"@.len()); }
        assert("clothingOffset"@ != "backFootIndex"@) by { reveal_strlit("clothingOffset"); reveal_strlit("backFootIndex"); assert("clothingOffset"@.len() != "backFootIndex"@.len()); }
        assert("clothingOffset"@ != "frontFootIndex"@) by { reveal_strlit("clothingOffset"); reveal_strlit("frontFootIndex"); assert("clothingOffset"@[0] != "frontFootIndex"@[0]); }
        assert("clothingOffset"@ != "useVanishIndex"@) by { reveal_strlit("clothingOffset"); reveal_strlit("useVanishIndex"); assert("clothingOffset"@[0] != "useVanishIndex"@[0]); }
        assert("clothingOffset"@ != "useAppearIndex"@) by { reveal_strlit("clothingOffset"); reveal_strlit("useAppearIndex"); assert("clothingOffset"@[0] != "useAppearIndex"@[0]); }
        assert("slotSize"@ != "headIndex"@) by { reveal_strlit("slotSize"); reveal_strlit("headIndex"); assert("slotSize"@.len() != "headIndex"@.len()); }
        assert("slotSize"@ != "bodyIndex"@) by { reveal_strlit("slotSize"); reveal_strlit("bodyIndex"); assert("slotSize"@.len() != "bodyIndex"@.len()); }
        assert("slotSize"@ != "backFootIndex"@) by { reveal_strlit("slotSize"); reveal_strlit("backFootIndex"); assert("slotSize"@.len() != "backFootIndex"@.len()); }
        assert("slotSize"@ != "frontFootIndex"@) by { reveal_strlit("slotSize"); reveal_strlit("frontFootIndex"); assert("slotSize"@.len() != "frontFootIndex"@.len()); }
        assert("slotSize"@ != "useVanishIndex"@) by { reveal_strlit("slotSize"); reveal_strlit("useVanishIndex"); assert("slotSize"@.len() != "useVanishIndex"@.len()); }
        assert("slotSize"@ != "useAppearIndex"@) by { reveal_strlit("slotSize"); reveal_strlit("useAppearIndex"); assert("slotSize"@.len() != "useAppearIndex"@.len()); }
        assert("headIndex"@ != "bodyIndex"@) by { reveal_strlit("headIndex"); reveal_strlit("bodyIndex"); assert("headIndex"@[0] != "bodyIndex"@[0]); }
        assert("headIndex"@ != "backFootIndex"@) by { reveal_strlit("headIndex"); reveal_strlit("backFootIndex"); assert("headIndex"@.len() != "backFootIndex"@.len()); }
        assert("headIndex"@ != "frontFootIndex"@) by { reveal_strlit("headIndex"); reveal_strlit("frontFootIndex"); assert("headIndex"@.len() != "frontFootIndex"@.len()); }
        assert("headIndex"@ != "useVanishIndex"@) by { reveal_strlit("headIndex"); reveal_strlit("useVanishIndex"); assert("headIndex"@.len() != "useVanishIndex"@.len()); }
        assert("headIndex"@ != "useAppearIndex"@) by { reveal_strlit("headIndex"); reveal_strlit("useAppearIndex"); assert("headIndex"@.len() != "useAppearIndex"@.len()); }
        assert("bodyIndex"@ != "backFootIndex"@) by { reveal_strlit("bodyIndex"); reveal_strlit("backFootIndex"); assert("bodyIndex"@.len() != "backFootIndex"@.len()); }
        assert("bodyIndex"@ != "frontFootIndex"@) by { reveal_strlit("bodyIndex"); reveal_strlit("frontFootIndex"); assert("bodyIndex"@.len() != "frontFootIndex"@.len()); }
        assert("bodyIndex"@ != "useVanishIndex"@) by { reveal_strlit("bodyIndex"); reveal_strlit("useVanishIndex"); assert("bodyIndex"@.len() != "useVanishIndex"@.len()); }
        assert("bodyIndex"@ != "useAppearIndex"@) by { reveal_strlit("bodyIndex"); reveal_strlit("useAppearIndex"); assert("bodyIndex"@.len() != "useAppearIndex"@.len()); }
        assert("backFootIndex"@ != "frontFootIndex"@) by { reveal_strlit("backFootIndex"); reveal_strlit("frontFootIndex"); assert("backFootIndex"@.len() != "frontFootIndex"@.len()); }
        assert("backFootIndex"@ != "useVanishIndex"@) by { reveal_strlit("backFootIndex"); reveal_strlit("useVanishIndex"); assert("backFootIndex"@.len() != "useVanishIndex"@.len()); }
        assert("backFootIndex"@ != "useAppearIndex"@) by { reveal_strlit("backFootIndex"); reveal_strlit("useAppearIndex"); assert("backFootIndex"@.len() != "useAppearIndex"@.len()); }
        assert("frontFootIndex"@ != "useVanishIndex"@) by { reveal_strlit("frontFootIndex"); reveal_strlit("useVanishIndex"); assert("frontFootIndex"@[0] != "useVanishIndex"@[0]); }
        assert("frontFootIndex"@ != "useAppearIndex"@) by { reveal_strlit("frontFootIndex"); reveal_strlit("useAppearIndex"); assert("frontFootIndex"@[0] != "useAppearIndex"@[0]); }
        assert("useVanishIndex"@ != "useAppearIndex"@) by { reveal_strlit("useVanishIndex"); reveal_strlit("useAppearIndex"); assert("useVanishIndex"@[3] != "useAppearIndex"@[3]); }
    }
    let (na, nb) = name;
    let (va, vb) = value;
    let (la, lb) = line;
    if eq_word(s, na, nb, "rValue") {
        match read_fixed(s, va, vb) {
            Some(x) => o.rValue = Some(x),
            None => return Err(FormatError::Malformed),
        }
    } else if eq_word(s, na, nb, "foodValue") {
        o.foodValue = Some(read_i32_list(s, va, vb));
    } else if eq_word(s, na, nb, "speedMult") {
        match read_fixed(s, va, vb) {
            Some(x) => o.speedMult = Some(x),
            None => return Err(FormatError::Malformed),
        }
    } else if eq_word(s, na, nb, "containOffset") {
        match I32Pair::read(s, va, vb) {
            Ok(x) => o.containOffset = Some(x),
            Err(e) => return Err(e),
        }
    } else if eq_word(s, na, nb, "heldOffset") {
        match DoublePair::read(s, va, vb) {
            Ok(x) => o.heldOffset = Some(x),
            Err(e) => return Err(e),
        }
    } else if eq_word(s, na, nb, "clothingOffset") {
        match DoublePair::read(s, va, vb) {
            Ok(x) => o.clothingOffset = Some(x),
            Err(e) => return Err(e),
        }
    } else if eq_word(s, na, nb, "slotSize") {
        match read_fixed(s, va, vb) {
            Some(x) => o.slotSize = Some(x),
            None => return Err(FormatError::Malformed),
        }
    } else if eq_word(s, na, nb, "headIndex") {
        o.headIndex = Some(read_i32_list(s, va, vb));
    } else if eq_word(s, na, nb, "bodyIndex") {
        o.bodyIndex = Some(read_i32_list(s, va, vb));
    } else if eq_word(s, na, nb, "backFootIndex") {
        o.backFootIndex = Some(read_i32_list(s, va, vb));
    } else if eq_word(s, na, nb, "frontFootIndex") {
        o.frontFootIndex = Some(read_i32_list(s, va, vb));
    } else if eq_word(s, na, nb, "useVanishIndex") {
        o.useVanishIndex = Some(read_i32_list(s, va, vb));
    } else if eq_word(s, na, nb, "useAppearIndex") {
        o.useAppearIndex = Some(read_i32_list(s, va, vb));
    } else {
        return Ok(false);
    }
    Ok(true)
}

#[verifier::rlimit(100)]
fn apply_comp(
    o: &mut OneLifeDataObject,
    s: &Vec<char>,
    name: (usize, usize),
    value: (usize, usize),
    line: (usize, usize),
) -> (r: Result<bool, FormatError>)
    requires
        old(o).wf(),
        name.0 <= name.1 <= s@.len(),
        value.0 <= value.1 <= s@.len(),
        line.0 <= line.1 <= s@.len(),
    ensures
        final(o).wf(),
        final(o).id == old(o).id,
        final(o).name == old(o).name,
        final(o).sprites == old(o).sprites,
        final(o).slotPosData == old(o).slotPosData,
        r is Err <==> fails_comp(s@.subrange(name.0 as int, name.1 as int), s@.subrange(value.0 as int, value.1 as int), s@.subrange(line.0 as int, line.1 as int)),
        final(o).containable == old(o).containable,
        s@.subrange(name.0 as int, name.1 as int) == "containSize"@ && r is Ok ==> final(o).containSize == ContainSizeData::parse(s@.subrange(line.0 as int, line.1 as int)),
        s@.subrange(name.0 as int, name.1 as int) != "containSize"@ ==> final(o).containSize == old(o).containSize,
        s@.subrange(name.0 as int, name.1 as int) == "permanent"@ && r is Ok ==> final(o).permanent == PermanentData::parse(s@.subrange(line.0 as int, line.1 as int)),
        s@.subrange(name.0 as int, name.1 as int) != "permanent"@ ==> final(o).permanent == old(o).permanent,
        final(o).noFlip == old(o).noFlip,
        final(o).sideAccess == old(o).sideAccess,
        final(o).heldInHand == old(o).heldInHand,
        final(o).ridingAnimationIndex == old(o).ridingAnimationIndex,
        s@.subrange(name.0 as int, name.1 as int) == "blocksWalking"@ && r is Ok ==> final(o).blocksWalking == BlocksWalkingData::parse(s@.subrange(line.0 as int, line.1 as int)),
        s@.subrange(name.0 as int, name.1 as int) != "blocksWalking"@ ==> final(o).blocksWalking == old(o).blocksWalking,
        s@.subrange(name.0 as int, name.1 as int) == "mapChance"@ && r is Ok ==> map_view(final(o).mapChance) == MapChanceData::parse(s@.subrange(line.0 as int, line.1 as int)),
        s@.subrange(name.0 as int, name.1 as int) != "mapChance"@ ==> final(o).mapChance == old(o).mapChance,
        final(o).heatValue == old(o).heatValue,
        final(o).rValue == old(o).rValue,
        s@.subrange(name.0 as int, name.1 as int) == "person"@ && r is Ok ==> final(o).person == PersonData::parse(s@.subrange(line.0 as int, line.1 as int)),
        s@.subrange(name.0 as int, name.1 as int) != "person"@ ==> final(o).person == old(o).person,
        final(o).male == old(o).male,
        final(o).deathMarker == old(o).deathMarker,
        final(o).homeMarker == old(o).homeMarker,
        final(o).floor == old(o).floor,
        final(o).partialFloor == old(o).partialFloor,
        final(o).floorHugging == old(o).floorHugging,
        final(o).wallLayer == old(o).wallLayer,
        final(o).frontWall == old(o).frontWall,
        final(o).foodValue == old(o).foodValue,
        final(o).speedMult == old(o).speedMult,
        final(o).containOffset == old(o).containOffset,
        final(o).heldOffset == old(o).heldOffset,
        s@.subrange(name.0 as int, name.1 as int) == "clothing"@ && r is Ok ==> final(o).clothing == ClothingData::parse(s@.subrange(line.0 as int, line.1 as int)),
        s@.subrange(name.0 as int, name.1 as int) != "clothing"@ ==> final(o).clothing == old(o).clothing,
        final(o).clothingOffset == old(o).clothingOffset,
        final(o).deadlyDistance == old(o).deadlyDistance,
        final(o).useDistance == old(o).useDistance,
        s@.subrange(name.0 as int, name.1 as int) == "sounds"@ && r is Ok ==> sounds_view(final(o).sounds) == Some(s@.subrange(line.0 as int, line.1 as int)),
        s@.subrange(name.0 as int, name.1 as int) != "sounds"@ ==> final(o).sounds == old(o).sounds,
        final(o).creationSoundInitialOnly == old(o).creationSoundInitialOnly,
        final(o).creationSoundForce == old(o).creationSoundForce,
        s@.subrange(name.0 as int, name.1 as int) == "numSlots"@ && r is Ok ==> final(o).numSlots == NumSlotsData::parse(s@.subrange(line.0 as int, line.1 as int)),
        s@.subrange(name.0 as int, name.1 as int) != "numSlots"@ ==> final(o).numSlots == old(o).numSlots,
        final(o).slotSize == old(o).slotSize,
        final(o).slotStyle == old(o).slotStyle,
        final(o).slotsLocked == old(o).slotsLocked,
        final(o).slotsNoSwap == old(o).slotsNoSwap,
        final(o).numSprites == old(o).numSprites,
        final(o).headIndex == old(o).headIndex,
        final(o).bodyIndex == old(o).bodyIndex,
        final(o).backFootIndex == old(o).backFootIndex,
        final(o).frontFootIndex == old(o).frontFootIndex,
        s@.subrange(name.0 as int, name.1 as int) == "numUses"@ && r is Ok ==> final(o).numUses == NumUsesData::parse(s@.subrange(line.0 as int, line.1 as int)),
        s@.subrange(name.0 as int, name.1 as int) != "numUses"@ ==> final(o).numUses == old(o).numUses,
        final(o).useVanishIndex == old(o).useVanishIndex,
        final(o).useAppearIndex == old(o).useAppearIndex,
        final(o).pixHeight == old(o).pixHeight,
{
    proof {
        assert("containSize"@ != "permanent"@) by { reveal_strlit("containSize"); reveal_strlit("permanent"); assert("containSize"@.len() != "permanent"@.len()); }
        assert("containSize"@ != "blocksWalking"@) by { reveal_strlit("containSize"); reveal_strlit("blocksWalking"); assert("containSize"@.len() != "blocksWalking"@.len()); }
        assert("containSize"@ != "mapChance"@) by { reveal_strlit("containSize"); reveal_strlit("mapChance"); assert("containSize"@.len() != "mapChance"@.len()); }
        assert("containSize"@ != "person"@) by { reveal_strlit("containSize"); reveal_strlit("person"); assert("containSize"@.len() != "person"@.len()); }
        assert("containSize"@ != "clothing"@) by { reveal_strlit("containSize"); reveal_strlit("clothing"); assert("containSize"@.len() != "clothing"@.len()); }
        assert("containSize"@ != "sounds"@) by { reveal_strlit("containSize"); reveal_strlit("sounds"); assert("containSize"@.len() != "sounds"@.len()); }
        assert("containSize"@ != "numSlots"@) by { reveal_strlit("containSize"); reveal_strlit("numSlots"); assert("containSize"@.len() != "numSlots"@.len()); }
        assert("containSize"@ != "numUses"@) by { reveal_strlit("containSize"); reveal_strlit("numUses"); assert("containSize"@.len() != "numUses"@.len()); }
        assert("permanent"@ != "blocksWalking"@) by { reveal_strlit("permanent"); reveal_strlit("blocksWalking"); assert("permanent"@.len() != "blocksWalking"@.len()); }
        assert("permanent"@ != "mapChance"@) by { reveal_strlit("permanent"); reveal_strlit("mapChance"); assert("permanent"@[0] != "mapChance"@[0]); }
        assert("permanent"@ != "person"@) by { reveal_strlit("permanent"); reveal_strlit("person"); assert("permanent"@.len() != "person"@.len()); }
        assert("permanent"@ != "clothing"@) by { reveal_strlit("permanent"); reveal_strlit("clothing"); assert("permanent"@.len() != "clothing"@.len()); }
        assert("permanent"@ != "sounds"@) by { reveal_strlit("permanent"); reveal_strlit("sounds"); assert("permanent"@.len() != "sounds"@.len()); }
        assert("permanent"@ != "numSlots"@) by { reveal_strlit("permanent"); reveal_strlit("numSlots"); assert("permanent"@.len() != "numSlots"@.len()); }
        assert("permanent"@ != "numUses"@) by { reveal_strlit("permanent"); reveal_strlit("numUses"); assert("permanent"@.len() != "numUses"@.len()); }
        assert("blocksWalking"@ != "mapChance"@) by { reveal_strlit("blocksWalking"); reveal_strlit("mapChance"); assert("blocksWalking"@.len() != "mapChance"@.len()); }
        assert("blocksWalking"@ != "person"@) by { reveal_strlit("blocksWalking"); reveal_strlit("person"); assert("blocksWalking"@.len() != "person"@.len()); }
        assert("blocksWalking"@ != "clothing"@) by { reveal_strlit("blocksWalking"); reveal_strlit("clothing"); assert("blocksWalking"@.len() != "clothing"@.len()); }
        assert("blocksWalking"@ != "sounds"@) by { reveal_strlit("blocksWalking"); reveal_strlit("sounds"); assert("blocksWalking"@.len() != "sounds"@.len()); }
        assert("blocksWalking"@ != "numSlots"@) by { reveal_strlit("blocksWalking"); reveal_strlit("numSlots"); assert("blocksWalking"@.len() != "numSlots"@.len()); }
        assert("blocksWalking"@ != "numUses"@) by { reveal_strlit("blocksWalking"); reveal_strlit("numUses"); assert("blocksWalking"@.len() != "numUses"@.len()); }
        assert("mapChance"@ != "person"@) by { reveal_strlit("mapChance"); reveal_strlit("person"); assert("mapChance"@.len() != "person"@.len()); }
        assert("mapChance"@ != "clothing"@) by { reveal_strlit("mapChance"); reveal_strlit("clothing"); assert("mapChance"@.len() != "clothing"@.len()); }
        assert("mapChance"@ != "sounds"@) by { reveal_strlit("mapChance"); reveal_strlit("sounds"); assert("mapChance"@.len() != "sounds"@.len()); }
        assert("mapChance"@ != "numSlots"@) by { reveal_strlit("mapChance"); reveal_strlit("numSlots"); assert("mapChance"@.len() != "numSlots"@.len()); }
        assert("mapChance"@ != "numUses"@) by { reveal_strlit("mapChance"); reveal_strlit("numUses"); assert("mapChance"@.len() != "numUses"@.len()); }
        assert("person"@ != "clothing"@) by { reveal_strlit("person"); reveal_strlit("clothing"); assert("person"@.len() != "clothing"@.len()); }
        assert("person"@ != "sounds"@) by { reveal_strlit("person"); reveal_strlit("sounds"); assert("person"@[0] != "sounds"@[0]); }
        assert("person"@ != "numSlots"@) by { reveal_strlit("person"); reveal_strlit("numSlots"); assert("person"@.len() != "numSlots"@.len()); }
        assert("person"@ != "numUses"@) by { reveal_strlit("person"); reveal_strlit("numUses"); assert("person"@.len() != "numUses"@.len()); }
        assert("clothing"@ != "sounds"@) by { reveal_strlit("clothing"); reveal_strlit("sounds"); assert("clothing"@.len() != "sounds"@.len()); }
        assert("clothing"@ != "numSlots"@) by { reveal_strlit("clothing"); reveal_strlit("numSlots"); assert("clothing"@[0] != "numSlots"@[0]); }
        assert("clothing"@ != "numUses"@) by { reveal_strlit("clothing"); reveal_strlit("numUses"); assert("clothing"@.len() != "numUses"@.len()); }
        assert("sounds"@ != "numSlots"@) by { reveal_strlit("sounds"); reveal_strlit("numSlots"); assert("sounds"@.len() != "numSlots"@.len()); }
        assert("sounds"@ != "numUses"@) by { reveal_strlit("sounds"); reveal_strlit("numUses"); assert("sounds"@.len() != "numUses"@.len()); }
        assert("numSlots"@ != "numUses"@) by { reveal_strlit("numSlots"); reveal_strlit("numUses"); assert("numSlots"@.len() != "numUses"@.len()); }
    }
    let (na, nb) = name;
    let (va, vb) = value;
    let (la, lb) = line;
    if eq_word(s, na, nb, "containSize") {
        match ContainSizeData::read(s, la, lb) {
            Ok(x) => o.containSize = Some(x),
            Err(e) => return Err(e),
        }
    } else if eq_word(s, na, nb, "permanent") {
        match PermanentData::read(s, la, lb) {
            Ok(x) => o.permanent = Some(x),
            Err(e) => return Err(e),
        }
    } else if eq_word(s, na, nb, "blocksWalking") {
        match BlocksWalkingData::read(s, la, lb) {
            Ok(x) => o.blocksWalking = Some(x),
            Err(e) => return Err(e),
        }
    } else if eq_word(s, na, nb, "mapChance") {
        match MapChanceData::read(s, la, lb) {
            Ok(x) => o.mapChance = Some(x),
            Err(e) => return Err(e),
        }
    } else if eq_word(s, na, nb, "person") {
        match PersonData::read(s, la, lb) {
            Ok(x) => o.person = Some(x),
            Err(e) => return Err(e),
        }
    } else if eq_word(s, na, nb, "clothing") {
        match ClothingData::read(s, la, lb) {
            Ok(x) => o.clothing = Some(x),
            Err(e) => return Err(e),
        }
    } else if eq_word(s, na, nb, "sounds") {
        o.sounds = Some(SoundsData::read(s, la, lb));
    } else if eq_word(s, na, nb, "numSlots") {
        match NumSlotsData::read(s, la, lb) {
            Ok(x) => o.numSlots = Some(x),
            Err(e) => return Err(e),
        }
    } else if eq_word(s, na, nb, "numUses") {
        match NumUsesData::read(s, la, lb) {
            Ok(x) => o.numUses = Some(x),
            Err(e) => return Err(e),
        }
    } else {
        return Ok(false);
    }
    Ok(true)
}

/// A line that names no single-line field leaves every such field as read.
proof fn lemma_skip_line(o: OneLifeDataObject, b: Seq<Seq<char>>, k: int)
    requires
        1 <= k < b.len(),
        read_fields(o, b.take(k)),
        !field_name(entry_name(b[k])),
    ensures
        read_fields(o, b.take(k + 1)),
{
    let bb = b.take(k + 1);
    assert(bb.drop_last() =~= b.take(k));
    assert(bb.last() == b[k]);
    lemma_flag_skip(o, bb);
    lemma_int_skip(o, bb);
    lemma_misc_skip(o, bb);
    lemma_comp_skip(o, bb);
}

/// The slot-position step of [`scan`], seen from the front.
pub open spec fn with_slot(
    x: SlotPosData,
    r: Result<(Seq<SpriteView>, Seq<SlotPosData>), Option<Part>>,
) -> Result<(Seq<SpriteView>, Seq<SlotPosData>), Option<Part>> {
    match r {
        Err(e) => Err(e),
        Ok((sp, sl)) => Ok((sp, seq![x] + sl)),
    }
}

/// The sprite step of [`scan`], seen from the front.
pub open spec fn with_sprite(
    v: SpriteView,
    keep: bool,
    r: Result<(Seq<SpriteView>, Seq<SlotPosData>), Option<Part>>,
) -> Result<(Seq<SpriteView>, Seq<SlotPosData>), Option<Part>> {
    match r {
        Err(e) => Err(e),
        Ok((sp, sl)) => Ok(
            (
                if keep {
                    seq![v] + sp
                } else {
                    sp
                },
                sl,
            ),
        ),
    }
}

proof fn lemma_prefix_slot(
    sp: Seq<SpriteView>,
    sl: Seq<SlotPosData>,
    x: SlotPosData,
    r: Result<(Seq<SpriteView>, Seq<SlotPosData>), Option<Part>>,
)
    ensures
        after_prefix(sp, sl, with_slot(x, r)) == after_prefix(sp, sl.push(x), r),
{
    if let Ok((a, c)) = r {
        assert(sl + (seq![x] + c) =~= sl.push(x) + c);
    }
}

proof fn lemma_prefix_sprite(
    sp: Seq<SpriteView>,
    sl: Seq<SlotPosData>,
    v: SpriteView,
    keep: bool,
    r: Result<(Seq<SpriteView>, Seq<SlotPosData>), Option<Part>>,
)
    ensures
        after_prefix(sp, sl, with_sprite(v, keep, r)) == after_prefix(
            if keep {
                sp.push(v)
            } else {
                sp
            },
            sl,
            r,
        ),
{
    if let Ok((a, c)) = r {
        if keep {
            assert(sp + (seq![v] + a) =~= sp.push(v) + a);
        }
    }
}

/// Applies line `k` of the record's body, `s[line]`, whose name and value
/// are `s[name]` and `s[value]`.
fn apply_line(
    o: &mut OneLifeDataObject,
    s: &Vec<char>,
    name: (usize, usize),
    value: (usize, usize),
    line: (usize, usize),
    b: Ghost<Seq<Seq<char>>>,
    k: Ghost<int>,
) -> (r: Result<bool, FormatError>)
    requires
        old(o).wf(),
        name.0 <= name.1 <= s@.len(),
        value.0 <= value.1 <= s@.len(),
        line.0 <= line.1 <= s@.len(),
        1 <= k@ < b@.len(),
        b@[k@] == s@.subrange(line.0 as int, line.1 as int),
        entry_name(b@[k@]) == s@.subrange(name.0 as int, name.1 as int),
        entry_value(b@[k@]) == Some(s@.subrange(value.0 as int, value.1 as int)),
        read_fields(*old(o), b@.take(k@)),
    ensures
        final(o).wf(),
        final(o).id == old(o).id,
        final(o).name == old(o).name,
        final(o).sprites == old(o).sprites,
        final(o).slotPosData == old(o).slotPosData,
        r is Err <==> line_fails(
            s@.subrange(name.0 as int, name.1 as int),
            s@.subrange(value.0 as int, value.1 as int),
            s@.subrange(line.0 as int, line.1 as int),
        ),
        r is Ok ==> read_fields(*final(o), b@.take(k@ + 1)),
{
    let ghost o_before = *o;
    let r = apply_field(o, s, name, value, line);
    proof {
        if r is Ok {
            let bb = b@.take(k@ + 1);
            assert(bb.drop_last() =~= b@.take(k@));
            assert(bb.last() == b@[k@]);
            let v = s@.subrange(value.0 as int, value.1 as int);
            lemma_flag_step(o_before, *o, bb, v);
            lemma_int_step(o_before, *o, bb, v);
            lemma_misc_step(o_before, *o, bb, v);
            lemma_comp_step(o_before, *o, bb, v);
        }
    }
    r
}

/// Lines that continue a sprite block leave every single-line field as read.
proof fn lemma_skip_block(o: OneLifeDataObject, b: Seq<Seq<char>>, from: int, to: int)
    requires
        1 <= from <= to <= b.len(),
        read_fields(o, b.take(from)),
        forall|m: int| from <= m < to ==> crate::sprite::is_sprite_field(#[trigger] entry_name(b[m])),
    ensures
        read_fields(o, b.take(to)),
    decreases to - from,
{
    if from < to {
        lemma_other_names();
        let bb = b.take(from + 1);
        assert(bb.drop_last() =~= b.take(from));
        assert(bb.last() == b[from]);
        assert(crate::sprite::is_sprite_field(entry_name(b[from])));
        lemma_flag_skip(o, bb);
        lemma_int_skip(o, bb);
        lemma_misc_skip(o, bb);
        lemma_comp_skip(o, bb);
        lemma_skip_block(o, b, from + 1, to);
    }
}

/// Reads the sprite block that opens at the line `s[la..lb]` (line `k` of the
/// record's body); gives the sprite and the index of the first line after
/// the block.
fn read_sprite_block(
    s: &Vec<char>,
    lines: &Vec<(usize, usize)>,
    la: usize,
    lb: usize,
    i: usize,
    src: Ghost<Seq<char>>,
    k: Ghost<int>,
) -> (r: Result<(SpriteData, usize), FormatError>)
    requires
        ranges_within(lines@, 0, s@.len() as int),
        pieces(s@, lines@) == record_lines(src@),
        lines@.len() >= 2,
        1 <= k@ < record_body(src@).len(),
        i == k@ + 2,
        la <= lb <= s@.len(),
        s@.subrange(la as int, lb as int) == record_body(src@)[k@],
    ensures
        k@ + 1 <= block_end(record_body(src@), k@ + 1) <= record_body(src@).len(),
        forall|m: int|
            k@ + 1 <= m < block_end(record_body(src@), k@ + 1) ==> crate::sprite::is_sprite_field(
                #[trigger] entry_name(record_body(src@)[m]),
            ),
        r is Err <==> SpriteData::parse(block_lines(record_body(src@), k@)) is None,
        r matches Ok(x) ==> x.1 == block_end(record_body(src@), k@ + 1) + 1 && x.0.wf()
            && SpriteData::parse(block_lines(record_body(src@), k@)) == Some(x.0.view()),
        r matches Err(e) ==> (head_value(block_lines(record_body(src@), k@)) is Some
            && SpriteData::first_absent(block_lines(record_body(src@), k@)) is Some ==> e
            == FormatError::Missing(SpriteData::first_absent(block_lines(record_body(src@), k@))->0)),
{
    let ghost body = record_body(src@);
    let ghost ls = record_lines(src@);
    let ghost t = s@.subrange(la as int, lb as int);
    let pieces_first = split_ranges(s, la, lb, ',');
    proof {
        crate::codec::lemma_split_len(t, ',');
    }
    let mut block: Vec<(usize, usize)> = Vec::new();
    block.push(pieces_first[0]);
    proof {
        assert(pieces(s@, pieces_first@)[0] == split(t, ',')[0]);
        assert(pieces(s@, block@) =~= seq![split(t, ',')[0]] + body.subrange(k@ + 1, k@ + 1));
    }
    let mut i = i;
    while i < lines.len()
        invariant
            k@ + 2 <= i <= lines@.len(),
            1 <= k@ < body.len(),
            body == record_body(src@),
            ls == record_lines(src@),
            ls == pieces(s@, lines@),
            body.len() == lines@.len() - 1,
            ranges_within(lines@, 0, s@.len() as int),
            ranges_within(block@, 0, s@.len() as int),
            block@.len() >= 1,
            block_end(body, k@ + 1) == block_end(body, i - 1),
            pieces(s@, block@) == seq![split(t, ',')[0]] + body.subrange(k@ + 1, i - 1),
            forall|m: int| k@ + 1 <= m < i - 1 ==> crate::sprite::is_sprite_field(#[trigger] entry_name(body[m])),
        ensures
            block_end(body, i - 1) == i - 1,
            k@ + 2 <= i <= lines@.len(),
            block_end(body, k@ + 1) == block_end(body, i - 1),
            pieces(s@, block@) == seq![split(t, ',')[0]] + body.subrange(k@ + 1, i - 1),
            forall|m: int| k@ + 1 <= m < i - 1 ==> crate::sprite::is_sprite_field(#[trigger] entry_name(body[m])),
            ranges_within(block@, 0, s@.len() as int),
            block@.len() >= 1,
        decreases lines@.len() - i,
    {
        let (ca, cb) = lines[i];
        let (da, db) = trim_range(s, ca, cb);
        let cparts = split_ranges(s, da, db, '=');
        let ghost ct = s@.subrange(da as int, db as int);
        proof {
            crate::codec::lemma_split_len(ct, '=');
            assert(ls[i as int] == s@.subrange(ca as int, cb as int));
            assert(body[i as int - 1] == ct);
        }
        let cname = cparts[0];
        proof {
            assert(pieces(s@, cparts@)[0] == s@.subrange(cname.0 as int, cname.1 as int));
            assert(entry_name(ct) == s@.subrange(cname.0 as int, cname.1 as int));
        }
        if eq_word(s, cname.0, cname.1, "spriteID") || !SpriteData::is_sprite_data(
            s,
            cname.0,
            cname.1,
        ) {
            break;
        }
        let ghost before_block = pieces(s@, block@);
        block.push((da, db));
        proof {
            assert(pieces(s@, block@) =~= before_block.push(ct));
            assert(body.subrange(k@ + 1, i as int) =~= body.subrange(k@ + 1, i - 1).push(ct));
        }
        i = i + 1;
    }
    proof {
        assert(pieces(s@, block@) == block_lines(body, k@));
    }
    match SpriteData::read(s, &block) {
        Ok(x) => Ok((x, i)),
        Err(e) => Err(e),
    }
}

/// Applies one `name=value` line to the record; `Ok(false)` when the name is
/// not a field of the format.
fn apply_field(
    o: &mut OneLifeDataObject,
    s: &Vec<char>,
    name: (usize, usize),
    value: (usize, usize),
    line: (usize, usize),
) -> (r: Result<bool, FormatError>)
    requires
        old(o).wf(),
        name.0 <= name.1 <= s@.len(),
        value.0 <= value.1 <= s@.len(),
        line.0 <= line.1 <= s@.len(),
    ensures
        final(o).wf(),
        final(o).id == old(o).id,
        final(o).name == old(o).name,
        final(o).sprites == old(o).sprites,
        final(o).slotPosData == old(o).slotPosData,
        r is Err <==> line_fails(s@.subrange(name.0 as int, name.1 as int), s@.subrange(value.0 as int, value.1 as int), s@.subrange(line.0 as int, line.1 as int)),
        s@.subrange(name.0 as int, name.1 as int) == "containable"@ && r is Ok ==> final(o).containable == Some(s@.subrange(value.0 as int, value.1 as int) != "0"@),
        s@.subrange(name.0 as int, name.1 as int) != "containable"@ ==> final(o).containable == old(o).containable,
        s@.subrange(name.0 as int, name.1 as int) == "containSize"@ && r is Ok ==> final(o).containSize == ContainSizeData::parse(s@.subrange(line.0 as int, line.1 as int)),
        s@.subrange(name.0 as int, name.1 as int) != "containSize"@ ==> final(o).containSize == old(o).containSize,
        s@.subrange(name.0 as int, name.1 as int) == "permanent"@ && r is Ok ==> final(o).permanent == PermanentData::parse(s@.subrange(line.0 as int, line.1 as int)),
        s@.subrange(name.0 as int, name.1 as int) != "permanent"@ ==> final(o).permanent == old(o).permanent,
        s@.subrange(name.0 as int, name.1 as int) == "noFlip"@ && r is Ok ==> final(o).noFlip == Some(s@.subrange(value.0 as int, value.1 as int) != "0"@),
        s@.subrange(name.0 as int, name.1 as int) != "noFlip"@ ==> final(o).noFlip == old(o).noFlip,
        s@.subrange(name.0 as int, name.1 as int) == "sideAccess"@ && r is Ok ==> final(o).sideAccess == Some(s@.subrange(value.0 as int, value.1 as int) != "0"@),
        s@.subrange(name.0 as int, name.1 as int) != "sideAccess"@ ==> final(o).sideAccess == old(o).sideAccess,
        s@.subrange(name.0 as int, name.1 as int) == "heldInHand"@ && r is Ok ==> int_of_i8(final(o).heldInHand) == parse_int_within(s@.subrange(value.0 as int, value.1 as int), -128, 127),
        s@.subrange(name.0 as int, name.1 as int) != "heldInHand"@ ==> final(o).heldInHand == old(o).heldInHand,
        s@.subrange(name.0 as int, name.1 as int) == "ridingAnimationIndex"@ && r is Ok ==> widen32(final(o).ridingAnimationIndex) == parse_int_within(s@.subrange(value.0 as int, value.1 as int), i32::MIN as int, i32::MAX as int),
        s@.subrange(name.0 as int, name.1 as int) != "ridingAnimationIndex"@ ==> final(o).ridingAnimationIndex == old(o).ridingAnimationIndex,
        s@.subrange(name.0 as int, name.1 as int) == "blocksWalking"@ && r is Ok ==> final(o).blocksWalking == BlocksWalkingData::parse(s@.subrange(line.0 as int, line.1 as int)),
        s@.subrange(name.0 as int, name.1 as int) != "blocksWalking"@ ==> final(o).blocksWalking == old(o).blocksWalking,
        s@.subrange(name.0 as int, name.1 as int) == "mapChance"@ && r is Ok ==> map_view(final(o).mapChance) == MapChanceData::parse(s@.subrange(line.0 as int, line.1 as int)),
        s@.subrange(name.0 as int, name.1 as int) != "mapChance"@ ==> final(o).mapChance == old(o).mapChance,
        s@.subrange(name.0 as int, name.1 as int) == "heatValue"@ && r is Ok ==> widen32(final(o).heatValue) == parse_int_within(s@.subrange(value.0 as int, value.1 as int), i32::MIN as int, i32::MAX as int),
        s@.subrange(name.0 as int, name.1 as int) != "heatValue"@ ==> final(o).heatValue == old(o).heatValue,
        s@.subrange(name.0 as int, name.1 as int) == "rValue"@ && r is Ok ==> final(o).rValue == fixed_of(s@.subrange(value.0 as int, value.1 as int)),
        s@.subrange(name.0 as int, name.1 as int) != "rValue"@ ==> final(o).rValue == old(o).rValue,
        s@.subrange(name.0 as int, name.1 as int) == "person"@ && r is Ok ==> final(o).person == PersonData::parse(s@.subrange(line.0 as int, line.1 as int)),
        s@.subrange(name.0 as int, name.1 as int) != "person"@ ==> final(o).person == old(o).person,
        s@.subrange(name.0 as int, name.1 as int) == "male"@ && r is Ok ==> final(o).male == Some(s@.subrange(value.0 as int, value.1 as int) != "0"@),
        s@.subrange(name.0 as int, name.1 as int) != "male"@ ==> final(o).male == old(o).male,
        s@.subrange(name.0 as int, name.1 as int) == "deathMarker"@ && r is Ok ==> final(o).deathMarker == Some(s@.subrange(value.0 as int, value.1 as int) != "0"@),
        s@.subrange(name.0 as int, name.1 as int) != "deathMarker"@ ==> final(o).deathMarker == old(o).deathMarker,
        s@.subrange(name.0 as int, name.1 as int) == "homeMarker"@ && r is Ok ==> final(o).homeMarker == Some(s@.subrange(value.0 as int, value.1 as int) != "0"@),
        s@.subrange(name.0 as int, name.1 as int) != "homeMarker"@ ==> final(o).homeMarker == old(o).homeMarker,
        s@.subrange(name.0 as int, name.1 as int) == "floor"@ && r is Ok ==> final(o).floor == Some(s@.subrange(value.0 as int, value.1 as int) != "0"@),
        s@.subrange(name.0 as int, name.1 as int) != "floor"@ ==> final(o).floor == old(o).floor,
        s@.subrange(name.0 as int, name.1 as int) == "partialFloor"@ && r is Ok ==> int_of_i8(final(o).partialFloor) == parse_int_within(s@.subrange(value.0 as int, value.1 as int), -128, 127),
        s@.subrange(name.0 as int, name.1 as int) != "partialFloor"@ ==> final(o).partialFloor == old(o).partialFloor,
        s@.subrange(name.0 as int, name.1 as int) == "floorHugging"@ && r is Ok ==> final(o).floorHugging == Some(s@.subrange(value.0 as int, value.1 as int) != "0"@),
        s@.subrange(name.0 as int, name.1 as int) != "floorHugging"@ ==> final(o).floorHugging == old(o).floorHugging,
        s@.subrange(name.0 as int, name.1 as int) == "wallLayer"@ && r is Ok ==> final(o).wallLayer == Some(s@.subrange(value.0 as int, value.1 as int) != "0"@),
        s@.subrange(name.0 as int, name.1 as int) != "wallLayer"@ ==> final(o).wallLayer == old(o).wallLayer,
        s@.subrange(name.0 as int, name.1 as int) == "frontWall"@ && r is Ok ==> widen32(final(o).frontWall) == parse_int_within(s@.subrange(value.0 as int, value.1 as int), i32::MIN as int, i32::MAX as int),
        s@.subrange(name.0 as int, name.1 as int) != "frontWall"@ ==> final(o).frontWall == old(o).frontWall,
        s@.subrange(name.0 as int, name.1 as int) == "foodValue"@ && r is Ok ==> ints_view(final(o).foodValue) == Some(lenient_ints(split(s@.subrange(value.0 as int, value.1 as int), ','), i32::MIN as int, i32::MAX as int)),
        s@.subrange(name.0 as int, name.1 as int) != "foodValue"@ ==> final(o).foodValue == old(o).foodValue,
        s@.subrange(name.0 as int, name.1 as int) == "speedMult"@ && r is Ok ==> final(o).speedMult == fixed_of(s@.subrange(value.0 as int, value.1 as int)),
        s@.subrange(name.0 as int, name.1 as int) != "speedMult"@ ==> final(o).speedMult == old(o).speedMult,
        s@.subrange(name.0 as int, name.1 as int) == "containOffset"@ && r is Ok ==> final(o).containOffset == I32Pair::parse(s@.subrange(value.0 as int, value.1 as int)),
        s@.subrange(name.0 as int, name.1 as int) != "containOffset"@ ==> final(o).containOffset == old(o).containOffset,
        s@.subrange(name.0 as int, name.1 as int) == "heldOffset"@ && r is Ok ==> final(o).heldOffset == DoublePair::parse(s@.subrange(value.0 as int, value.1 as int)),
        s@.subrange(name.0 as int, name.1 as int) != "heldOffset"@ ==> final(o).heldOffset == old(o).heldOffset,
        s@.subrange(name.0 as int, name.1 as int) == "clothing"@ && r is Ok ==> final(o).clothing == ClothingData::parse(s@.subrange(line.0 as int, line.1 as int)),
        s@.subrange(name.0 as int, name.1 as int) != "clothing"@ ==> final(o).clothing == old(o).clothing,
        s@.subrange(name.0 as int, name.1 as int) == "clothingOffset"@ && r is Ok ==> final(o).clothingOffset == DoublePair::parse(s@.subrange(value.0 as int, value.1 as int)),
        s@.subrange(name.0 as int, name.1 as int) != "clothingOffset"@ ==> final(o).clothingOffset == old(o).clothingOffset,
        s@.subrange(name.0 as int, name.1 as int) == "deadlyDistance"@ && r is Ok ==> widen32(final(o).deadlyDistance) == parse_int_within(s@.subrange(value.0 as int, value.1 as int), i32::MIN as int, i32::MAX as int),
        s@.subrange(name.0 as int, name.1 as int) != "deadlyDistance"@ ==> final(o).deadlyDistance == old(o).deadlyDistance,
        s@.subrange(name.0 as int, name.1 as int) == "useDistance"@ && r is Ok ==> widen32(final(o).useDistance) == parse_int_within(s@.subrange(value.0 as int, value.1 as int), i32::MIN as int, i32::MAX as int),
        s@.subrange(name.0 as int, name.1 as int) != "useDistance"@ ==> final(o).useDistance == old(o).useDistance,
        s@.subrange(name.0 as int, name.1 as int) == "sounds"@ && r is Ok ==> sounds_view(final(o).sounds) == Some(s@.subrange(line.0 as int, line.1 as int)),
        s@.subrange(name.0 as int, name.1 as int) != "sounds"@ ==> final(o).sounds == old(o).sounds,
        s@.subrange(name.0 as int, name.1 as int) == "creationSoundInitialOnly"@ && r is Ok ==> final(o).creationSoundInitialOnly == Some(s@.subrange(value.0 as int, value.1 as int) != "0"@),
        s@.subrange(name.0 as int, name.1 as int) != "creationSoundInitialOnly"@ ==> final(o).creationSoundInitialOnly == old(o).creationSoundInitialOnly,
        s@.subrange(name.0 as int, name.1 as int) == "creationSoundForce"@ && r is Ok ==> final(o).creationSoundForce == Some(s@.subrange(value.0 as int, value.1 as int) != "0"@),
        s@.subrange(name.0 as int, name.1 as int) != "creationSoundForce"@ ==> final(o).creationSoundForce == old(o).creationSoundForce,
        s@.subrange(name.0 as int, name.1 as int) == "numSlots"@ && r is Ok ==> final(o).numSlots == NumSlotsData::parse(s@.subrange(line.0 as int, line.1 as int)),
        s@.subrange(name.0 as int, name.1 as int) != "numSlots"@ ==> final(o).numSlots == old(o).numSlots,
        s@.subrange(name.0 as int, name.1 as int) == "slotSize"@ && r is Ok ==> final(o).slotSize == fixed_of(s@.subrange(value.0 as int, value.1 as int)),
        s@.subrange(name.0 as int, name.1 as int) != "slotSize"@ ==> final(o).slotSize == old(o).slotSize,
        s@.subrange(name.0 as int, name.1 as int) == "slotStyle"@ && r is Ok ==> widen32(final(o).slotStyle) == parse_int_within(s@.subrange(value.0 as int, value.1 as int), i32::MIN as int, i32::MAX as int),
        s@.subrange(name.0 as int, name.1 as int) != "slotStyle"@ ==> final(o).slotStyle == old(o).slotStyle,
        s@.subrange(name.0 as int, name.1 as int) == "slotsLocked"@ && r is Ok ==> final(o).slotsLocked == Some(s@.subrange(value.0 as int, value.1 as int) != "0"@),
        s@.subrange(name.0 as int, name.1 as int) != "slotsLocked"@ ==> final(o).slotsLocked == old(o).slotsLocked,
        s@.subrange(name.0 as int, name.1 as int) == "slotsNoSwap"@ && r is Ok ==> final(o).slotsNoSwap == Some(s@.subrange(value.0 as int, value.1 as int) != "0"@),
        s@.subrange(name.0 as int, name.1 as int) != "slotsNoSwap"@ ==> final(o).slotsNoSwap == old(o).slotsNoSwap,
        s@.subrange(name.0 as int, name.1 as int) == "numSprites"@ && r is Ok ==> widen32(final(o).numSprites) == parse_int_within(s@.subrange(value.0 as int, value.1 as int), i32::MIN as int, i32::MAX as int),
        s@.subrange(name.0 as int, name.1 as int) != "numSprites"@ ==> final(o).numSprites == old(o).numSprites,
        s@.subrange(name.0 as int, name.1 as int) == "headIndex"@ && r is Ok ==> ints_view(final(o).headIndex) == Some(lenient_ints(split(s@.subrange(value.0 as int, value.1 as int), ','), i32::MIN as int, i32::MAX as int)),
        s@.subrange(name.0 as int, name.1 as int) != "headIndex"@ ==> final(o).headIndex == old(o).headIndex,
        s@.subrange(name.0 as int, name.1 as int) == "bodyIndex"@ && r is Ok ==> ints_view(final(o).bodyIndex) == Some(lenient_ints(split(s@.subrange(value.0 as int, value.1 as int), ','), i32::MIN as int, i32::MAX as int)),
        s@.subrange(name.0 as int, name.1 as int) != "bodyIndex"@ ==> final(o).bodyIndex == old(o).bodyIndex,
        s@.subrange(name.0 as int, name.1 as int) == "backFootIndex"@ && r is Ok ==> ints_view(final(o).backFootIndex) == Some(lenient_ints(split(s@.subrange(value.0 as int, value.1 as int), ','), i32::MIN as int, i32::MAX as int)),
        s@.subrange(name.0 as int, name.1 as int) != "backFootIndex"@ ==> final(o).backFootIndex == old(o).backFootIndex,
        s@.subrange(name.0 as int, name.1 as int) == "frontFootIndex"@ && r is Ok ==> ints_view(final(o).frontFootIndex) == Some(lenient_ints(split(s@.subrange(value.0 as int, value.1 as int), ','), i32::MIN as int, i32::MAX as int)),
        s@.subrange(name.0 as int, name.1 as int) != "frontFootIndex"@ ==> final(o).frontFootIndex == old(o).frontFootIndex,
        s@.subrange(name.0 as int, name.1 as int) == "numUses"@ && r is Ok ==> final(o).numUses == NumUsesData::parse(s@.subrange(line.0 as int, line.1 as int)),
        s@.subrange(name.0 as int, name.1 as int) != "numUses"@ ==> final(o).numUses == old(o).numUses,
        s@.subrange(name.0 as int, name.1 as int) == "useVanishIndex"@ && r is Ok ==> ints_view(final(o).useVanishIndex) == Some(lenient_ints(split(s@.subrange(value.0 as int, value.1 as int), ','), i32::MIN as int, i32::MAX as int)),
        s@.subrange(name.0 as int, name.1 as int) != "useVanishIndex"@ ==> final(o).useVanishIndex == old(o).useVanishIndex,
        s@.subrange(name.0 as int, name.1 as int) == "useAppearIndex"@ && r is Ok ==> ints_view(final(o).useAppearIndex) == Some(lenient_ints(split(s@.subrange(value.0 as int, value.1 as int), ','), i32::MIN as int, i32::MAX as int)),
        s@.subrange(name.0 as int, name.1 as int) != "useAppearIndex"@ ==> final(o).useAppearIndex == old(o).useAppearIndex,
        s@.subrange(name.0 as int, name.1 as int) == "pixHeight"@ && r is Ok ==> widen32(final(o).pixHeight) == parse_int_within(s@.subrange(value.0 as int, value.1 as int), i32::MIN as int, i32::MAX as int),
        s@.subrange(name.0 as int, name.1 as int) != "pixHeight"@ ==> final(o).pixHeight == old(o).pixHeight,
{
    match apply_flag(o, s, name, value, line) {
        Ok(_) => {},
        Err(e) => return Err(e),
    }
    match apply_int(o, s, name, value, line) {
        Ok(_) => {},
        Err(e) => return Err(e),
    }
    match apply_misc(o, s, name, value, line) {
        Ok(_) => {},
        Err(e) => return Err(e),
    }
    match apply_comp(o, s, name, value, line) {
        Ok(_) => Ok(true),
        Err(e) => Err(e),
    }
}

impl OneLifeDataObject {
    /// A record with the given identity and no other field.
    pub fn new(id: i32, name: String) -> (r: OneLifeDataObject)
        ensures
            r.wf(),
            r.id == id,
            r.name == name,
            r.containable is None,
            r.containSize is None,
            r.permanent is None,
            r.noFlip is None,
            r.sideAccess is None,
            r.heldInHand is None,
            r.ridingAnimationIndex is None,
            r.blocksWalking is None,
            r.mapChance is None,
            r.heatValue is None,
            r.rValue is None,
            r.person is None,
            r.male is None,
            r.deathMarker is None,
            r.homeMarker is None,
            r.floor is None,
            r.partialFloor is None,
            r.floorHugging is None,
            r.wallLayer is None,
            r.frontWall is None,
            r.foodValue is None,
            r.speedMult is None,
            r.containOffset is None,
            r.heldOffset is None,
            r.clothing is None,
            r.clothingOffset is None,
            r.deadlyDistance is None,
            r.useDistance is None,
            r.sounds is None,
            r.creationSoundInitialOnly is None,
            r.creationSoundForce is None,
            r.numSlots is None,
            r.slotSize is None,
            r.slotStyle is None,
            r.slotsLocked is None,
            r.slotsNoSwap is None,
            r.slotPosData is None,
            r.numSprites is None,
            r.sprites is None,
            r.headIndex is None,
            r.bodyIndex is None,
            r.backFootIndex is None,
            r.frontFootIndex is None,
            r.numUses is None,
            r.useVanishIndex is None,
            r.useAppearIndex is None,
            r.pixHeight is None,
    {
        OneLifeDataObject {
            id,
            name,
            containable: None,
            containSize: None,
            permanent: None,
            noFlip: None,
            sideAccess: None,
            heldInHand: None,
            ridingAnimationIndex: None,
            blocksWalking: None,
            mapChance: None,
            heatValue: None,
            rValue: None,
            person: None,
            male: None,
            deathMarker: None,
            homeMarker: None,
            floor: None,
            partialFloor: None,
            floorHugging: None,
            wallLayer: None,
            frontWall: None,
            foodValue: None,
            speedMult: None,
            containOffset: None,
            heldOffset: None,
            clothing: None,
            clothingOffset: None,
            deadlyDistance: None,
            useDistance: None,
            sounds: None,
            creationSoundInitialOnly: None,
            creationSoundForce: None,
            numSlots: None,
            slotSize: None,
            slotStyle: None,
            slotsLocked: None,
            slotsNoSwap: None,
            slotPosData: None,
            numSprites: None,
            sprites: None,
            headIndex: None,
            bodyIndex: None,
            backFootIndex: None,
            frontFootIndex: None,
            numUses: None,
            useVanishIndex: None,
            useAppearIndex: None,
            pixHeight: None,
        }
    }

    /// Reads a record. The first line gives the identifier, the second the
    /// name as written; each later line, without surrounding whitespace, is
    /// dispatched on the text before its `=`. Unknown names are skipped. A
    /// `spriteID` line opens a block that takes the following lines while
    /// they name sprite values; the sprite is kept when a positive
    /// `numSprites` came before it. `slotPos` lines accumulate. Every other
    /// field takes the value of the last line that bears its name. A value
    /// that does not read fails the whole record.
    #[verifier::rlimit(100)]
    pub fn from_str(src: &str) -> (r: Result<OneLifeDataObject, FormatError>)
        ensures
            r is Ok <==> record_reads(src@),
            r matches Ok(o) ==> o.wf() && record_id(src@) == Some(o.id as int) && o.name@
                == record_lines(src@)[1] && read_fields(o, record_body(src@)),
            r matches Ok(o) ==> scan(record_body(src@), 1) == Ok::<_, Option<Part>>(
                (sprites_of(o.sprites), slots_of(o.slotPosData)),
            ),
            r matches Ok(o) ==> (o.sprites matches Some(v) ==> v@.len() > 0),
            r matches Ok(o) ==> (o.slotPosData matches Some(v) ==> v@.len() > 0),
            record_id(src@) is Some && missing_part(src@) is Some ==> r == Err::<
                OneLifeDataObject,
                FormatError,
            >(FormatError::Missing(missing_part(src@)->0)),
    {
        let s = chars_of(src);
        assert(s@.subrange(0, s@.len() as int) =~= s@);
        let (lo, hi) = trim_range(&s, 0, s.len());
        let lines = split_ranges(&s, lo, hi, '\n');
        let ghost ls = pieces(s@, lines@);
        if lines.len() < 2 {
            return Err(FormatError::Missing(Part::Name));
        }
        let ghost body = record_body(src@);
        assert(ls == record_lines(src@));
        let (a, b) = lines[0];
        assert(ls[0] == s@.subrange(a as int, b as int));
        let (va, vb) = match value_range(&s, a, b) {
            Some(p) => p,
            None => return Err(FormatError::Malformed),
        };
        let (ta, tb) = trim_range(&s, va, vb);
        let id = match read_int(&s, ta, tb, i32::MIN as i64, i32::MAX as i64) {
            Some(x) => x as i32,
            None => return Err(FormatError::Malformed),
        };
        let (na, nb) = lines[1];
        assert(ls[1] == s@.subrange(na as int, nb as int));
        let mut name_chars: Vec<char> = Vec::new();
        push_range(&mut name_chars, &s, na, nb);
        let mut o = OneLifeDataObject::new(id, string_of(&name_chars));
        let mut sprites: Vec<SpriteData> = Vec::new();
        let mut slots: Vec<SlotPosData> = Vec::new();
        proof {
            lemma_other_names();
            let b1 = body.take(1);
            assert(b1.len() == 1);
            match scan(body, 1) {
                Ok((x, y)) => {
                    assert(Seq::<SpriteView>::empty() + x =~= x);
                    assert(Seq::<SlotPosData>::empty() + y =~= y);
                },
                Err(_) => {},
            }
            assert(views(sprites@) =~= Seq::<SpriteView>::empty());
        }
        let mut i: usize = 2;
        while i < lines.len()
            invariant
                ranges_within(lines@, 0, s@.len() as int),
                2 <= i <= lines@.len(),
                o.wf(),
                o.id == id,
                o.name@ == ls[1],
                ls == pieces(s@, lines@),
                body == record_body(src@),
                ls == record_lines(src@),
                body.len() == lines@.len() - 1,
                read_fields(o, body.take(i - 1)),
                scan(body, 1) == after_prefix(views(sprites@), slots@, scan(body, i - 1)),
                o.sprites is None,
                o.slotPosData is None,
                forall|j: int| 0 <= j < sprites@.len() ==> (#[trigger] sprites@[j]).wf(),
                forall|j: int| 0 <= j < slots@.len() ==> (#[trigger] slots@[j]).wf(),
            decreases lines@.len() - i,
        {
            let ghost k: int = i - 1;
            let (ra, rb) = lines[i];
            let (la, lb) = trim_range(&s, ra, rb);
            let ghost t = s@.subrange(la as int, lb as int);
            proof {
                assert(ls[i as int] == s@.subrange(ra as int, rb as int));
                assert(body[k] == t);
                assert(body.take(i as int).drop_last() =~= body.take(k));
                assert(body.take(i as int).last() == t);
            }
            let ghost o_before = o;
            let ghost sprites_before = sprites@;
            let ghost slots_before = slots@;
            i = i + 1;
            if la == lb {
                proof {
                    assert(t =~= Seq::<char>::empty());
                    assert(split(t, '=') =~= seq![Seq::<char>::empty()]);
                    lemma_other_names();
                    lemma_skip_line(o, body, k);
                }
                continue;
            }
            let parts = split_ranges(&s, la, lb, '=');
            if parts.len() < 2 {
                return Err(FormatError::Malformed);
            }
            let name = parts[0];
            let value = parts[1];
            proof {
                assert(pieces(s@, parts@)[0] == s@.subrange(name.0 as int, name.1 as int));
                assert(pieces(s@, parts@)[1] == s@.subrange(value.0 as int, value.1 as int));
                assert(entry_name(t) == s@.subrange(name.0 as int, name.1 as int));
                assert(entry_value(t) == Some(s@.subrange(value.0 as int, value.1 as int)));
            }
            if eq_word(&s, name.0, name.1, "spriteID") {
                let counted_now = match o.numSprites {
                    Some(n) => n > 0,
                    None => false,
                };
                proof {
                    assert(counted_now == counted(body, k));
                    lemma_other_names();
                    lemma_skip_line(o, body, k);
                }
                let (sprite, next) = match read_sprite_block(&s, &lines, la, lb, i, Ghost(src@), Ghost(k)) {
                    Ok(x) => x,
                    Err(e) => return Err(e),
                };
                let ghost j = next - 1;
                proof {
                    lemma_skip_block(o, body, k + 1, j);
                }
                i = next;
                if counted_now {
                    sprites.push(sprite);
                }
                proof {
                    assert(scan(body, k) == with_sprite(sprite.view(), counted(body, k), scan(body, j)));
                    lemma_prefix_sprite(sprites_before.map_values(|x: SpriteData| x.view()), slots@, sprite.view(), counted_now, scan(body, j));
                    assert(views(sprites@) =~= if counted_now {
                        views(sprites_before).push(sprite.view())
                    } else {
                        views(sprites_before)
                    });
                }
            } else if eq_word(&s, name.0, name.1, "slotPos") {
                proof {
                    lemma_other_names();
                    lemma_skip_line(o, body, k);
                }
                match SlotPosData::read(&s, la, lb) {
                    Ok(x) => {
                        slots.push(x);
                        proof {
                            assert(scan(body, k) == with_slot(x, scan(body, k + 1)));
                            lemma_prefix_slot(views(sprites@), slots_before, x, scan(body, k + 1));
                        }
                    },
                    Err(e) => return Err(e),
                }
            } else {
                match apply_line(&mut o, &s, name, value, (la, lb), Ghost(body), Ghost(k)) {
                    Ok(_) => {},
                    Err(e) => return Err(e),
                }
            }
        }
        proof {
            assert(body.take(lines@.len() - 1) =~= body);
            assert(views(sprites@) + Seq::<SpriteView>::empty() =~= views(sprites@));
            assert(slots@ + Seq::<SlotPosData>::empty() =~= slots@);
        }
        if sprites.len() > 0 {
            o.sprites = Some(sprites);
        } else {
            proof {
                assert(views(sprites@) =~= Seq::<SpriteView>::empty());
            }
        }
        if slots.len() > 0 {
            o.slotPosData = Some(slots);
        } else {
            proof {
                assert(slots@ =~= Seq::<SlotPosData>::empty());
            }
        }
        Ok(o)
    }
}

} // verus!
