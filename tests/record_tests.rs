use twotech_filter::codec::Fixed;
use twotech_filter::entries::{FormatError, Part};
use twotech_filter::object::OneLifeDataObject;

const BOWL: &str = "id=30
Wooden Bowl
containable=1
containSize=1.000000,vertSlotRot=0.0
permanent=0,minPickupAge=3
heldInHand=1
blocksWalking=0
mapChance=0.0#biomes_0
heatValue=0
rValue=0.0
person=0,noSpawn=0
male=0
deathMarker=0
floor=0
foodValue=0,0
speedMult=1.000000
heldOffset=0.0,0.0
clothing=n
clothingOffset=0.0,0.0
deadlyDistance=0
useDistance=1
sounds=-1:0.0,-1:0.0,-1:0.0,-1:0.0
creationSoundInitialOnly=0
numSlots=0#timeStretch=1.000000
slotSize=1.000000
slotsLocked=0
slotPos=0.0,10.000000,vert=0,parent=-1
numSprites=1
spriteID=123
pos=0.0,1.000000
rot=0.0
hFlip=0
color=1.000000,1.000000,1.000000
ageRange=-1.000000,-1.000000
parent=-1
invisHolding=0,invisWorn=0,behindSlots=0
invisCont=0
headIndex=-1
bodyIndex=-1
backFootIndex=-1
frontFootIndex=-1
numUses=1,1.000000
useVanishIndex=-1
useAppearIndex=-1
pixHeight=0";

#[test]
fn record_text_round_trip() {
    let o = OneLifeDataObject::from_str(BOWL).unwrap();
    assert_eq!(o.id, 30);
    assert_eq!(o.name, "Wooden Bowl");
    assert_eq!(o.containable, Some(true));
    assert_eq!(o.heldInHand, Some(1));
    assert_eq!(o.foodValue, Some(vec![0, 0]));
    assert_eq!(o.speedMult, Some(Fixed { micros: 1_000_000 }));
    assert_eq!(o.numSprites, Some(1));
    let sprites = o.sprites.as_ref().unwrap();
    assert_eq!(sprites.len(), 1);
    assert_eq!(sprites[0].spriteID, 123);
    assert_eq!(sprites[0].parent, -1);
    assert_eq!(sprites[0].invisCont, Some(false));
    assert_eq!(o.slotPosData.as_ref().unwrap().len(), 1);
    assert_eq!(o.to_string(), BOWL);
}

#[test]
fn record_round_trip_of_value() {
    let o = OneLifeDataObject::from_str(BOWL).unwrap();
    let again = OneLifeDataObject::from_str(&o.to_string()).unwrap();
    assert_eq!(again, o);
}

#[test]
fn unknown_line_is_skipped() {
    let text = BOWL.replace("heldInHand=1\n", "heldInHand=1\nfoo=bar\n");
    let o = OneLifeDataObject::from_str(&text).unwrap();
    assert_eq!(o.to_string(), BOWL);
}

#[test]
fn whitespace_around_lines_is_ignored() {
    let text = format!("  {}\n\n", BOWL.replace("male=0\n", "male=0  \n\n"));
    let o = OneLifeDataObject::from_str(&text).unwrap();
    assert_eq!(o.to_string(), BOWL);
}

#[test]
fn sprites_without_count_are_dropped() {
    let text = BOWL.replace("numSprites=1\n", "");
    let o = OneLifeDataObject::from_str(&text).unwrap();
    assert_eq!(o.sprites, None);
    assert_eq!(o.headIndex, Some(vec![-1]));
}

#[test]
fn sprite_without_color_fails_the_record() {
    let text = BOWL.replace("color=1.000000,1.000000,1.000000\n", "");
    assert_eq!(OneLifeDataObject::from_str(&text), Err(FormatError::Missing(Part::Color)));
}

#[test]
fn bad_identifier_fails() {
    assert!(OneLifeDataObject::from_str("id=abc\nName").is_err());
    assert!(OneLifeDataObject::from_str("id=3").is_err());
    let o = OneLifeDataObject::from_str("id=3\nStone").unwrap();
    assert_eq!(o.id, 3);
    assert_eq!(o.to_string(), "id=3\nStone");
}

#[test]
fn flag_lines_are_lenient() {
    let o = OneLifeDataObject::from_str("id=3\nStone\nmale=yes\nfloor=0").unwrap();
    assert_eq!(o.male, Some(true));
    assert_eq!(o.floor, Some(false));
    assert_eq!(o.to_string(), "id=3\nStone\nmale=1\nfloor=0");
}

#[test]
fn integer_fields_must_parse() {
    assert_eq!(OneLifeDataObject::from_str("id=3\nStone\nheatValue=hot"), Err(FormatError::Malformed));
}

#[test]
fn last_line_of_a_name_wins() {
    let o = OneLifeDataObject::from_str("id=3\nStone\nheatValue=1\nheatValue=-4\nspeedMult=0.5").unwrap();
    assert_eq!(o.heatValue, Some(-4));
    assert_eq!(o.speedMult, Some(Fixed { micros: 500_000 }));
    assert_eq!(o.to_string(), "id=3\nStone\nheatValue=-4\nspeedMult=0.500000");
}

#[test]
fn line_without_value_fails() {
    assert_eq!(OneLifeDataObject::from_str("id=3\nStone\nfloor"), Err(FormatError::Malformed));
}

const SPRITE_A: &str = "spriteID=5
pos=1.000000,2.000000
rot=0.0
hFlip=1
color=1.000000,1.000000,1.000000
ageRange=-1.000000,-1.000000
parent=-1
invisHolding=0,invisWorn=0,behindSlots=0";

#[test]
fn bare_record_has_no_other_fields() {
    let o = OneLifeDataObject::from_str("id=33\nStone Axe, sharp").unwrap();
    assert_eq!(o, OneLifeDataObject::new(33, "Stone Axe, sharp".to_string()));
}

#[test]
fn two_sprite_blocks_in_order() {
    let b2 = SPRITE_A.replace("spriteID=5", "spriteID=6");
    let text = format!("id=1\nX\nnumSprites=2\n{SPRITE_A}\n{b2}\nheadIndex=-1");
    let o = OneLifeDataObject::from_str(&text).unwrap();
    let sprites = o.sprites.as_ref().unwrap();
    assert_eq!(sprites.len(), 2);
    assert_eq!(sprites[0].spriteID, 5);
    assert_eq!(sprites[1].spriteID, 6);
    assert_eq!(o.headIndex, Some(vec![-1]));
    assert_eq!(o.to_string(), text);
}

#[test]
fn sprites_need_a_positive_count() {
    let text = format!("id=1\nX\nnumSprites=0\n{SPRITE_A}");
    assert_eq!(OneLifeDataObject::from_str(&text).unwrap().sprites, None);
}

#[test]
fn permissive_flags_and_lenient_lists() {
    let o = OneLifeDataObject::from_str("id=1\nX\ncontainable=2\nnoFlip=0\nfoodValue=5,x,3").unwrap();
    assert_eq!(o.containable, Some(true));
    assert_eq!(o.noFlip, Some(false));
    assert_eq!(o.foodValue, Some(vec![5, 3]));
}

#[test]
fn sprite_missing_parts_are_named() {
    let text = format!("id=1\nX\nnumSprites=1\n{}", SPRITE_A.replace("parent=-1\n", ""));
    assert_eq!(OneLifeDataObject::from_str(&text), Err(FormatError::Missing(Part::Parent)));
    let text = format!("id=1\nX\nnumSprites=1\n{}", SPRITE_A.replace("pos=1.000000,2.000000\n", ""));
    assert_eq!(OneLifeDataObject::from_str(&text), Err(FormatError::Missing(Part::Pos)));
}
