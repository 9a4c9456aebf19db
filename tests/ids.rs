use genie_support::{SoundId, UnitTypeId};
use std::convert::{TryFrom, TryInto};

#[test]
fn unit_type_id_into_u32() {
    let n: u32 = UnitTypeId(12).try_into().unwrap();
    assert_eq!(n, 12u32);
    assert_eq!(u32::try_from(UnitTypeId(u16::MAX)), Ok(65535u32));
}

#[test]
fn unit_type_id_into_usize() {
    assert_eq!(usize::try_from(UnitTypeId(0)), Ok(0usize));
    assert_eq!(usize::try_from(UnitTypeId(40000)), Ok(40000usize));
}

#[test]
fn unit_type_id_into_i16() {
    let n: i16 = UnitTypeId(12).try_into().unwrap();
    assert_eq!(n, 12i16);
    assert_eq!(i16::try_from(UnitTypeId(32767)), Ok(32767i16));
    assert!(i16::try_from(UnitTypeId(32768)).is_err());
    assert!(i16::try_from(UnitTypeId(50000u16)).is_err());
}

#[test]
fn unit_type_id_from_i16() {
    assert_eq!(UnitTypeId::try_from(1i16).unwrap(), UnitTypeId(1));
    assert_eq!(UnitTypeId::try_from(0i16).unwrap(), UnitTypeId(0));
    assert_eq!(UnitTypeId::try_from(i16::MAX).unwrap(), UnitTypeId(32767));
    assert!(UnitTypeId::try_from(-1i16).is_err());
    assert!(UnitTypeId::try_from(i16::MIN).is_err());
}

#[test]
fn unit_type_id_from_u32() {
    assert_eq!(UnitTypeId::try_from(65535u32).unwrap(), UnitTypeId(65535));
    assert!(UnitTypeId::try_from(65536u32).is_err());
    assert!(UnitTypeId::try_from(u32::MAX).is_err());
}

#[test]
fn unit_type_id_round_trips() {
    for v in [0i16, 1, 300, i16::MAX] {
        let id = UnitTypeId::try_from(v).unwrap();
        assert_eq!(i16::try_from(id), Ok(v));
    }
    for v in [0u32, 7, 65535] {
        let id = UnitTypeId::try_from(v).unwrap();
        assert_eq!(u32::try_from(id), Ok(v));
    }
}

#[test]
fn sound_id_into_i32() {
    assert_eq!(i32::try_from(SoundId(-1)), Ok(-1i32));
    assert_eq!(i32::try_from(SoundId(i16::MIN)), Ok(-32768i32));
}

#[test]
fn sound_id_into_u16() {
    assert_eq!(u16::try_from(SoundId(5)), Ok(5u16));
    assert_eq!(u16::try_from(SoundId(i16::MAX)), Ok(32767u16));
    assert!(u16::try_from(SoundId(-1)).is_err());
}

#[test]
fn sound_id_from_u16() {
    assert_eq!(SoundId::try_from(32767u16).unwrap(), SoundId(32767));
    assert!(SoundId::try_from(32768u16).is_err());
    assert!(SoundId::try_from(u16::MAX).is_err());
}

#[test]
fn sound_id_from_i32() {
    assert_eq!(SoundId::try_from(-32768i32).unwrap(), SoundId(-32768));
    assert_eq!(SoundId::try_from(-1i32).unwrap(), SoundId(-1));
    assert!(SoundId::try_from(32768i32).is_err());
    assert!(SoundId::try_from(-32769i32).is_err());
}

#[test]
fn sound_id_round_trips() {
    for v in [0u16, 9, 32767] {
        let id = SoundId::try_from(v).unwrap();
        assert_eq!(u16::try_from(id), Ok(v));
    }
    for v in [i16::MIN as i32, -1, 0, i16::MAX as i32] {
        let id = SoundId::try_from(v).unwrap();
        assert_eq!(i32::try_from(id), Ok(v));
    }
}
