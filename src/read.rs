use byteorder::{ByteOrder, LittleEndian};
use vstd::prelude::*;
use vstd::slice::slice_subrange;

verus! {

/// Why a field could not be read from a byte stream.
#[derive(Debug, Clone, Copy, PartialEq, Eq)]
pub enum ReadError {
    /// The stream ended before the field's last byte.
    UnexpectedEof,
}

/// The unsigned value of the first two bytes of `b`, least significant first.
pub open spec fn le_u16(b: Seq<u8>) -> int {
    b[0] as int + 0x100 * b[1] as int
}

/// The unsigned value of the first four bytes of `b`, least significant first.
pub open spec fn le_u32(b: Seq<u8>) -> int {
    b[0] as int + 0x100 * b[1] as int + 0x1_0000 * b[2] as int + 0x100_0000 * b[3] as int
}

/// What a 16-bit sentinel field holding the bytes `b` decodes to: the pattern
/// of all bits set is absent, every other pattern is its unsigned value.
pub open spec fn opt_u16_of(b: Seq<u8>) -> Option<u16> {
    if le_u16(b) == 0xFFFF {
        None
    } else {
        Some(le_u16(b) as u16)
    }
}

/// What a 32-bit sentinel field holding the bytes `b` decodes to: a pattern
/// with the sign bit set (a negative value) is absent, any other pattern is
/// its value.
pub open spec fn opt_u32_of(b: Seq<u8>) -> Option<u32> {
    if le_u32(b) >= 0x8000_0000 {
        None
    } else {
        Some(le_u32(b) as u32)
    }
}

/// Relies on byteorder's `LittleEndian::read_i16`: the first two bytes of
/// `buf`, least significant first, read as a two's-complement value.
#[verifier::external_body]
fn read_le_i16(buf: &[u8]) -> (r: i16)
    requires
        buf@.len() >= 2,
    ensures
        r as int == if le_u16(buf@) < 0x8000 {
            le_u16(buf@)
        } else {
            le_u16(buf@) - 0x1_0000
        },
{
    LittleEndian::read_i16(buf)
}

/// Relies on byteorder's `LittleEndian::read_i32`: the first four bytes of
/// `buf`, least significant first, read as a two's-complement value.
#[verifier::external_body]
fn read_le_i32(buf: &[u8]) -> (r: i32)
    requires
        buf@.len() >= 4,
    ensures
        r as int == if le_u32(buf@) < 0x8000_0000 {
            le_u32(buf@)
        } else {
            le_u32(buf@) - 0x1_0000_0000
        },
{
    LittleEndian::read_i32(buf)
}

/// Reads a 2-byte little-endian field in which -1 (all bits set) stands for
/// an absent value; every other pattern is read as an unsigned number.
///
/// On success the two bytes are consumed. A stream of fewer than two bytes
/// gives `UnexpectedEof` and is left as it was.
pub fn read_opt_u16(input: &mut &[u8]) -> (r: Result<Option<u16>, ReadError>)
    ensures
        old(input)@.len() < 2 ==> r == Err::<Option<u16>, ReadError>(ReadError::UnexpectedEof)
            && final(input)@ == old(input)@,
        old(input)@.len() >= 2 ==> r == Ok::<Option<u16>, ReadError>(opt_u16_of(old(input)@))
            && final(input)@ == old(input)@.subrange(2, old(input)@.len() as int),
{
    let bytes: &[u8] = *input;
    if bytes.len() < 2 {
        return Err(ReadError::UnexpectedEof);
    }
    let v: i16 = read_le_i16(bytes);
    *input = slice_subrange(bytes, 2, bytes.len());
    if v == -1 {
        return Ok(None);
    }
    let u: u16 = if v >= 0 {
        v as u16
    } else {
        (v as i32 + 0x1_0000) as u16
    };
    Ok(Some(u))
}

/// Reads a 4-byte little-endian field in which any negative value stands for
/// an absent value; a non-negative value is read as an unsigned number.
///
/// On success the four bytes are consumed. A stream of fewer than four bytes
/// gives `UnexpectedEof` and is left as it was.
pub fn read_opt_u32(input: &mut &[u8]) -> (r: Result<Option<u32>, ReadError>)
    ensures
        old(input)@.len() < 4 ==> r == Err::<Option<u32>, ReadError>(ReadError::UnexpectedEof)
            && final(input)@ == old(input)@,
        old(input)@.len() >= 4 ==> r == Ok::<Option<u32>, ReadError>(opt_u32_of(old(input)@))
            && final(input)@ == old(input)@.subrange(4, old(input)@.len() as int),
{
    let bytes: &[u8] = *input;
    if bytes.len() < 4 {
        return Err(ReadError::UnexpectedEof);
    }
    let v: i32 = read_le_i32(bytes);
    *input = slice_subrange(bytes, 4, bytes.len());
    if v < 0 {
        return Ok(None);
    }
    Ok(Some(v as u32))
}

} // verus!
