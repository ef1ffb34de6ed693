use twotech_filter::clothing::{ClothingData, ClothingType};
use twotech_filter::codec::Fixed;
use twotech_filter::entries::{encode_bool, FormatError, Part, ToBool, ToI8};
use twotech_filter::fields::{
    BlocksWalkingData, ContainSizeData, InvisHoldingData, NumSlotsData, NumUsesData, PermanentData,
    PersonData, SoundsData,
};
use twotech_filter::lists::{ColorData, DoublePair, I32Pair, MapChanceData, SlotPosData};

#[test]
fn zero_is_written_with_one_place() {
    assert_eq!(Fixed { micros: 0 }.to_string(), "0.0");
}

#[test]
fn nonzero_is_written_with_six_places() {
    assert_eq!(Fixed { micros: 150_000 }.to_string(), "0.150000");
    assert_eq!(Fixed { micros: -500_000 }.to_string(), "-0.500000");
    assert_eq!(Fixed { micros: 2_000_000 }.to_string(), "2.000000");
    assert_eq!(Fixed { micros: 123_456_789 }.to_string(), "123.456789");
    assert_eq!(Fixed { micros: 1 }.to_string(), "0.000001");
}

#[test]
fn decimals_are_read_exactly() {
    assert_eq!(Fixed::from_str("2.000000"), Some(Fixed { micros: 2_000_000 }));
    assert_eq!(Fixed::from_str("-0.5"), Some(Fixed { micros: -500_000 }));
    assert_eq!(Fixed::from_str("3"), Some(Fixed { micros: 3_000_000 }));
    assert_eq!(Fixed::from_str("0.0"), Some(Fixed { micros: 0 }));
    assert_eq!(Fixed::from_str("0.000000"), Some(Fixed { micros: 0 }));
    assert_eq!(Fixed::from_str("1.2345678"), None);
    assert_eq!(Fixed::from_str("abc"), None);
    assert_eq!(Fixed::from_str(""), None);
}

#[test]
fn flags_are_written_as_digits() {
    assert_eq!(encode_bool(true), "1");
    assert_eq!(encode_bool(false), "0");
    assert_eq!(true.to_i8(), 1);
    assert_eq!(false.to_i8(), 0);
    assert!(5i8.to_bool());
    assert!(!0i8.to_bool());
}

#[test]
fn contain_size_with_rotation() {
    let line = "containSize=2.000000,vertSlotRot=-0.500000";
    let d = ContainSizeData::from_str(line).unwrap();
    assert_eq!(d.containSize, Fixed { micros: 2_000_000 });
    assert_eq!(d.vertSlotRot, Some(Fixed { micros: -500_000 }));
    assert_eq!(d.to_string(), line);
}

#[test]
fn contain_size_without_rotation() {
    let line = "containSize=2.000000";
    let d = ContainSizeData::from_str(line).unwrap();
    assert_eq!(d.containSize, Fixed { micros: 2_000_000 });
    assert_eq!(d.vertSlotRot, None);
    assert_eq!(d.to_string(), line);
}

#[test]
fn contain_size_accepts_an_integer() {
    let d = ContainSizeData::from_str("containSize=3").unwrap();
    assert_eq!(d.containSize, Fixed { micros: 3_000_000 });
    assert_eq!(d.to_string(), "containSize=3.000000");
}

#[test]
fn contain_size_rejects_bad_values() {
    assert!(ContainSizeData::from_str("containSize=big").is_err());
    assert!(ContainSizeData::from_str("containSize=1.0,vertSlotRot=x").is_err());
    assert!(ContainSizeData::from_str("containSize").is_err());
}

#[test]
fn composite_skips_unknown_names() {
    let d = ContainSizeData::from_str("containSize=1.000000,foo=bar,vertSlotRot=0.250000").unwrap();
    assert_eq!(d.vertSlotRot, Some(Fixed { micros: 250_000 }));
    assert_eq!(d.to_string(), "containSize=1.000000,vertSlotRot=0.250000");
}

#[test]
fn permanent_round_trip() {
    let line = "permanent=1,minPickupAge=3";
    let d = PermanentData::from_str(line).unwrap();
    assert!(d.permanent);
    assert_eq!(d.minPickupAge, Some(3));
    assert_eq!(d.to_string(), line);
    let d = PermanentData::from_str("permanent=0").unwrap();
    assert!(!d.permanent);
    assert_eq!(d.to_string(), "permanent=0");
}

#[test]
fn person_round_trip() {
    let d = PersonData::from_str("person=2,noSpawn=1").unwrap();
    assert_eq!(d.person, 2);
    assert_eq!(d.noSpawn, Some(true));
    assert_eq!(d.to_string(), "person=2,noSpawn=1");
    assert!(PersonData::from_str("person=300").is_err());
}

#[test]
fn blocks_walking_round_trip() {
    let line = "blocksWalking=1,leftBlockingRadius=1,rightBlockingRadius=2,drawBehindPlayer=0";
    let d = BlocksWalkingData::from_str(line).unwrap();
    assert!(d.blocksWalking);
    assert_eq!(d.leftBlockingRadius, Some(1));
    assert_eq!(d.rightBlockingRadius, Some(2));
    assert_eq!(d.drawBehindPlayer, Some(false));
    assert_eq!(d.to_string(), line);
}

#[test]
fn num_slots_round_trip() {
    let line = "numSlots=3#timeStretch=2.500000";
    let d = NumSlotsData::from_str(line).unwrap();
    assert_eq!(d.numSlots, 3);
    assert_eq!(d.timeStretch, Some(Fixed { micros: 2_500_000 }));
    assert_eq!(d.to_string(), line);
}

#[test]
fn invis_holding_requires_all_parts() {
    let line = "invisHolding=0,invisWorn=2,behindSlots=1";
    let d = InvisHoldingData::from_str(line).unwrap();
    assert_eq!(d.invisWorn, 2);
    assert!(d.behindSlots);
    assert_eq!(d.to_string(), line);
    assert_eq!(InvisHoldingData::from_str("invisHolding=0,invisWorn=2"), Err(FormatError::Missing(Part::BehindSlots)));
    assert_eq!(
        InvisHoldingData::from_str("invisHolding=1,behindSlots=0"),
        Err(FormatError::Missing(Part::InvisWorn))
    );
    assert_eq!(Part::InvisWorn.name(), "invisWorn");
}

#[test]
fn num_uses_round_trip() {
    let d = NumUsesData::from_str("numUses=3,0.500000").unwrap();
    assert_eq!(d.numUses, 3);
    assert_eq!(d.useChance, Some(Fixed { micros: 500_000 }));
    assert_eq!(d.to_string(), "numUses=3,0.500000");
    let d = NumUsesData::from_str("numUses=3,x").unwrap();
    assert_eq!(d.useChance, None);
}

#[test]
fn pairs_and_color() {
    let p = DoublePair::from_str("1.000000,-2.500000").unwrap();
    assert_eq!(p, DoublePair(Fixed { micros: 1_000_000 }, Fixed { micros: -2_500_000 }));
    assert_eq!(p.to_string(), "1.000000,-2.500000");
    let q = I32Pair::from_str("3,-4").unwrap();
    assert_eq!(q, I32Pair(3, -4));
    assert_eq!(q.to_string(), "3,-4");
    assert_eq!(I32Pair::from_str("3"), Err(FormatError::Missing(Part::Values)));
    let c = ColorData::from_str("color=1.000000,0.500000,0.0").unwrap();
    assert_eq!(c.blue, Fixed { micros: 0 });
    assert_eq!(c.to_string(), "color=1.000000,0.500000,0.0");
}

#[test]
fn map_chance_round_trip() {
    let line = "mapChance=0.500000#biomes_0,1,2";
    let d = MapChanceData::from_str(line).unwrap();
    assert_eq!(d.mapChance, Fixed { micros: 500_000 });
    assert_eq!(d.biomes, Some(vec![0, 1, 2]));
    assert_eq!(d.to_string(), line);
}

#[test]
fn slot_pos_round_trip() {
    let line = "slotPos=0.0,10.000000,vert=0,parent=-1";
    let d = SlotPosData::from_str(line).unwrap();
    assert_eq!(d.slotPos, DoublePair(Fixed { micros: 0 }, Fixed { micros: 10_000_000 }));
    assert_eq!(d.vert, Some(0));
    assert_eq!(d.parent, Some(-1));
    assert_eq!(d.to_string(), line);
}

#[test]
fn clothing_codes() {
    let d = ClothingData::from_str("clothing=h").unwrap();
    assert_eq!(d.clothing, ClothingType::Head);
    assert_eq!(d.to_string(), "clothing=h");
    assert_eq!(ClothingData::from_str("clothing=x"), Err(FormatError::UnknownCode));
    assert_eq!(ClothingType::from_code("p0"), Ok(ClothingType::Shield));
    assert_eq!(ClothingType::from_code("Head"), Err(FormatError::UnknownCode));
    assert_eq!(ClothingType::from_str(" HEAD "), Ok(ClothingType::Head));
    assert_eq!(ClothingType::from_str("shoe"), Ok(ClothingType::Shoe));
    assert_eq!(ClothingType::NotWorn.to_string(), "n");
}

#[test]
fn sounds_line_is_kept() {
    let line = "sounds=-1:0.0,-1:0.0,-1:0.0,-1:0.0";
    let d = SoundsData::from_str(line).unwrap();
    assert_eq!(d.to_string(), line);
}
