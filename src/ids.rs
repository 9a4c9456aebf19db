use std::convert::{Infallible, TryFrom};
use std::num::TryFromIntError;
use vstd::prelude::*;
use vstd::std_specs::convert::{TryFromSpec, TryFromSpecImpl};

verus! {

/// Identifies a unit type: an unsigned 16-bit index into the unit table.
#[derive(Debug, Clone, Copy, PartialEq, Eq, Structural)]
pub struct UnitTypeId(pub u16);

/// Identifies a sound: a signed 16-bit index, as sound fields store it.
#[derive(Debug, Clone, Copy, PartialEq, Eq, Structural)]
pub struct SoundId(pub i16);

/// Every `u16` is a `u32`: this never fails.
impl TryFrom<UnitTypeId> for u32 {
    type Error = Infallible;

    fn try_from(n: UnitTypeId) -> (r: Result<u32, Infallible>) {
        Ok(n.0 as u32)
    }
}

impl TryFromSpecImpl<UnitTypeId> for u32 {
    open spec fn obeys_try_from_spec() -> bool {
        true
    }

    open spec fn try_from_spec(n: UnitTypeId) -> Result<u32, Infallible> {
        Ok(n.0 as u32)
    }
}

/// Every `u16` is a `usize`: this never fails.
impl TryFrom<UnitTypeId> for usize {
    type Error = Infallible;

    fn try_from(n: UnitTypeId) -> (r: Result<usize, Infallible>) {
        Ok(n.0 as usize)
    }
}

impl TryFromSpecImpl<UnitTypeId> for usize {
    open spec fn obeys_try_from_spec() -> bool {
        true
    }

    open spec fn try_from_spec(n: UnitTypeId) -> Result<usize, Infallible> {
        Ok(n.0 as usize)
    }
}

/// Fails for the IDs above `i16::MAX`. The ID is widened losslessly to `u32`
/// first, and that value range-checked.
impl TryFrom<UnitTypeId> for i16 {
    type Error = TryFromIntError;

    fn try_from(n: UnitTypeId) -> (r: Result<i16, TryFromIntError>) {
        i16::try_from(n.0 as u32)
    }
}

impl TryFromSpecImpl<UnitTypeId> for i16 {
    open spec fn obeys_try_from_spec() -> bool {
        true
    }

    open spec fn try_from_spec(n: UnitTypeId) -> Result<i16, TryFromIntError> {
        <i16 as TryFromSpec<u32>>::try_from_spec(n.0 as u32)
    }
}

/// Fails for the negative numbers.
impl TryFrom<i16> for UnitTypeId {
    type Error = TryFromIntError;

    fn try_from(n: i16) -> (r: Result<UnitTypeId, TryFromIntError>) {
        match u16::try_from(n) {
            Ok(v) => Ok(UnitTypeId(v)),
            Err(e) => Err(e),
        }
    }
}

impl TryFromSpecImpl<i16> for UnitTypeId {
    open spec fn obeys_try_from_spec() -> bool {
        true
    }

    open spec fn try_from_spec(n: i16) -> Result<UnitTypeId, TryFromIntError> {
        match <u16 as TryFromSpec<i16>>::try_from_spec(n) {
            Ok(v) => Ok(UnitTypeId(v)),
            Err(e) => Err(e),
        }
    }
}

/// Fails for the numbers above `u16::MAX`.
impl TryFrom<u32> for UnitTypeId {
    type Error = TryFromIntError;

    fn try_from(n: u32) -> (r: Result<UnitTypeId, TryFromIntError>) {
        match u16::try_from(n) {
            Ok(v) => Ok(UnitTypeId(v)),
            Err(e) => Err(e),
        }
    }
}

impl TryFromSpecImpl<u32> for UnitTypeId {
    open spec fn obeys_try_from_spec() -> bool {
        true
    }

    open spec fn try_from_spec(n: u32) -> Result<UnitTypeId, TryFromIntError> {
        match <u16 as TryFromSpec<u32>>::try_from_spec(n) {
            Ok(v) => Ok(UnitTypeId(v)),
            Err(e) => Err(e),
        }
    }
}

/// Every `i16` is an `i32`: this never fails.
impl TryFrom<SoundId> for i32 {
    type Error = Infallible;

    fn try_from(n: SoundId) -> (r: Result<i32, Infallible>) {
        Ok(n.0 as i32)
    }
}

impl TryFromSpecImpl<SoundId> for i32 {
    open spec fn obeys_try_from_spec() -> bool {
        true
    }

    open spec fn try_from_spec(n: SoundId) -> Result<i32, Infallible> {
        Ok(n.0 as i32)
    }
}

/// Fails for the negative IDs.
impl TryFrom<SoundId> for u16 {
    type Error = TryFromIntError;

    fn try_from(n: SoundId) -> (r: Result<u16, TryFromIntError>) {
        u16::try_from(n.0)
    }
}

impl TryFromSpecImpl<SoundId> for u16 {
    open spec fn obeys_try_from_spec() -> bool {
        true
    }

    open spec fn try_from_spec(n: SoundId) -> Result<u16, TryFromIntError> {
        <u16 as TryFromSpec<i16>>::try_from_spec(n.0)
    }
}

/// Fails for the numbers above `i16::MAX`. The number is widened losslessly
/// to `u32` first, and that value range-checked.
impl TryFrom<u16> for SoundId {
    type Error = TryFromIntError;

    fn try_from(n: u16) -> (r: Result<SoundId, TryFromIntError>) {
        match i16::try_from(n as u32) {
            Ok(v) => Ok(SoundId(v)),
            Err(e) => Err(e),
        }
    }
}

impl TryFromSpecImpl<u16> for SoundId {
    open spec fn obeys_try_from_spec() -> bool {
        true
    }

    open spec fn try_from_spec(n: u16) -> Result<SoundId, TryFromIntError> {
        match <i16 as TryFromSpec<u32>>::try_from_spec(n as u32) {
            Ok(v) => Ok(SoundId(v)),
            Err(e) => Err(e),
        }
    }
}

/// Fails for the numbers outside `i16::MIN..=i16::MAX`.
impl TryFrom<i32> for SoundId {
    type Error = TryFromIntError;

    fn try_from(n: i32) -> (r: Result<SoundId, TryFromIntError>) {
        match i16::try_from(n) {
            Ok(v) => Ok(SoundId(v)),
            Err(e) => Err(e),
        }
    }
}

impl TryFromSpecImpl<i32> for SoundId {
    open spec fn obeys_try_from_spec() -> bool {
        true
    }

    open spec fn try_from_spec(n: i32) -> Result<SoundId, TryFromIntError> {
        match <i16 as TryFromSpec<i32>>::try_from_spec(n) {
            Ok(v) => Ok(SoundId(v)),
            Err(e) => Err(e),
        }
    }
}

/// The infallible conversions always succeed and keep the number: a unit
/// type ID as `u32` or `usize`, a sound ID as `i32`.
pub proof fn lemma_widening_keeps_value(unit: UnitTypeId, sound: SoundId)
    ensures
        <u32 as TryFromSpec<UnitTypeId>>::try_from_spec(unit) is Ok,
        <u32 as TryFromSpec<UnitTypeId>>::try_from_spec(unit)->Ok_0 as int == unit.0 as int,
        <usize as TryFromSpec<UnitTypeId>>::try_from_spec(unit) is Ok,
        <usize as TryFromSpec<UnitTypeId>>::try_from_spec(unit)->Ok_0 as int == unit.0 as int,
        <i32 as TryFromSpec<SoundId>>::try_from_spec(sound) is Ok,
        <i32 as TryFromSpec<SoundId>>::try_from_spec(sound)->Ok_0 as int == sound.0 as int,
{
}

/// A fallible conversion out of an ID succeeds exactly when the ID's number
/// lies in the target type's range, and then keeps the number.
pub proof fn lemma_narrowing_from_id(unit: UnitTypeId, sound: SoundId)
    ensures
        <i16 as TryFromSpec<UnitTypeId>>::try_from_spec(unit) is Ok <==> unit.0 <= i16::MAX,
        <i16 as TryFromSpec<UnitTypeId>>::try_from_spec(unit) is Ok
            ==> <i16 as TryFromSpec<UnitTypeId>>::try_from_spec(unit)->Ok_0 as int == unit.0 as int,
        <u16 as TryFromSpec<SoundId>>::try_from_spec(sound) is Ok <==> sound.0 >= 0,
        <u16 as TryFromSpec<SoundId>>::try_from_spec(sound) is Ok
            ==> <u16 as TryFromSpec<SoundId>>::try_from_spec(sound)->Ok_0 as int == sound.0 as int,
{
}

/// Building a unit type ID from a number succeeds exactly when the number
/// lies in `0..=u16::MAX`, and then the ID holds that number.
pub proof fn lemma_unit_type_id_from_number(a: i16, b: u32)
    ensures
        <UnitTypeId as TryFromSpec<i16>>::try_from_spec(a) is Ok <==> 0 <= a,
        <UnitTypeId as TryFromSpec<i16>>::try_from_spec(a) is Ok
            ==> <UnitTypeId as TryFromSpec<i16>>::try_from_spec(a)->Ok_0.0 as int == a as int,
        <UnitTypeId as TryFromSpec<u32>>::try_from_spec(b) is Ok <==> b <= u16::MAX,
        <UnitTypeId as TryFromSpec<u32>>::try_from_spec(b) is Ok
            ==> <UnitTypeId as TryFromSpec<u32>>::try_from_spec(b)->Ok_0.0 as int == b as int,
{
}

/// Building a sound ID from a number succeeds exactly when the number lies
/// in `i16::MIN..=i16::MAX`, and then the ID holds that number.
pub proof fn lemma_sound_id_from_number(a: u16, b: i32)
    ensures
        <SoundId as TryFromSpec<u16>>::try_from_spec(a) is Ok <==> a <= i16::MAX,
        <SoundId as TryFromSpec<u16>>::try_from_spec(a) is Ok
            ==> <SoundId as TryFromSpec<u16>>::try_from_spec(a)->Ok_0.0 as int == a as int,
        <SoundId as TryFromSpec<i32>>::try_from_spec(b) is Ok <==> i16::MIN <= b <= i16::MAX,
        <SoundId as TryFromSpec<i32>>::try_from_spec(b) is Ok
            ==> <SoundId as TryFromSpec<i32>>::try_from_spec(b)->Ok_0.0 as int == b as int,
{
}

/// A number that an ID was built from comes back unchanged when the ID is
/// converted back to the number's type.
pub proof fn lemma_round_trip(a: i16, b: u32, c: u16, d: i32)
    ensures
        <UnitTypeId as TryFromSpec<i16>>::try_from_spec(a) is Ok ==> <i16 as TryFromSpec<
            UnitTypeId,
        >>::try_from_spec(<UnitTypeId as TryFromSpec<i16>>::try_from_spec(a)->Ok_0) == Ok::<
            i16,
            TryFromIntError,
        >(a),
        <UnitTypeId as TryFromSpec<u32>>::try_from_spec(b) is Ok ==> <u32 as TryFromSpec<
            UnitTypeId,
        >>::try_from_spec(<UnitTypeId as TryFromSpec<u32>>::try_from_spec(b)->Ok_0) == Ok::<
            u32,
            Infallible,
        >(b),
        <SoundId as TryFromSpec<u16>>::try_from_spec(c) is Ok ==> <u16 as TryFromSpec<
            SoundId,
        >>::try_from_spec(<SoundId as TryFromSpec<u16>>::try_from_spec(c)->Ok_0) == Ok::<
            u16,
            TryFromIntError,
        >(c),
        <SoundId as TryFromSpec<i32>>::try_from_spec(d) is Ok ==> <i32 as TryFromSpec<
            SoundId,
        >>::try_from_spec(<SoundId as TryFromSpec<i32>>::try_from_spec(d)->Ok_0) == Ok::<
            i32,
            Infallible,
        >(d),
{
}

/// An unsigned ID cannot be built from a negative number, and can always be
/// built from a number in `0..=u16::MAX`.
pub proof fn lemma_unsigned_id_rejects_negatives(a: i16, b: u32)
    ensures
        a < 0 ==> <UnitTypeId as TryFromSpec<i16>>::try_from_spec(a) is Err,
        a >= 0 ==> <UnitTypeId as TryFromSpec<i16>>::try_from_spec(a) is Ok,
        b <= u16::MAX ==> <UnitTypeId as TryFromSpec<u32>>::try_from_spec(b) is Ok,
{
}

} // verus!
