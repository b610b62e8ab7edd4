//! Conversion of sizes into the engine's signed 32-bit integer domain.

use vstd::prelude::*;
use crate::error::{ImageError, ImageErrorKind};

verus! {

/// True when `value` can be handed to the engine as a non-negative
/// signed 32-bit integer.
pub open spec fn fits_c_int(value: int) -> bool {
    0 <= value <= i32::MAX
}

/// Converts a size for the engine. Every size that crosses into the
/// engine goes through here, so an unrepresentable one is always reported
/// as `DimensionOverflow`.
pub fn to_c_int(value: usize) -> (r: Result<i32, ImageError>)
    ensures
        match r {
            Ok(v) => fits_c_int(value as int) && v == value,
            Err(e) => !fits_c_int(value as int) && e.has(
                ImageErrorKind::DimensionOverflow,
                "out of range integral type conversion attempted"@,
            ),
        },
{
    match i32::try_from(value) {
        Ok(v) => Ok(v),
        Err(_) => Err(
            ImageError::new(
                ImageErrorKind::DimensionOverflow,
                "out of range integral type conversion attempted",
            ),
        ),
    }
}

} // verus!
