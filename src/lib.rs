//! Support primitives for decoding binary game-data formats: numeric ID
//! wrappers with checked conversions, and readers for integer fields that
//! reserve a sentinel pattern for "no value".

pub mod ids;
pub mod read;

pub use read::{le_u16, le_u32, opt_u16_of, opt_u32_of, read_opt_u16, read_opt_u32, ReadError};
pub use ids::{SoundId, UnitTypeId};
