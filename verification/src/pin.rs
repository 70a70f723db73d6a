//! Session PIN generation.
//!
//! A PIN is two digits, each in the inclusive range `DIGIT_MIN..=DIGIT_MAX`.
//! Each digit is derived from an independent draw of a cryptographically
//! secure random source; the draws are taken as plain values so that the
//! derivation itself is verified. Reducing a uniform draw with `%` introduces
//! a negligible bias toward the smaller digits; that is a known and accepted
//! property of the scheme, not something this module corrects.

use vstd::prelude::*;

verus! {

/// Smallest valid PIN digit.
pub const DIGIT_MIN: u8 = 1;

/// Largest valid PIN digit; there are `DIGIT_MAX` valid digit values.
pub const DIGIT_MAX: u8 = 4;

/// A digit is valid when it lies in the configured inclusive range.
pub open spec fn digit_in_range(d: u8) -> bool {
    DIGIT_MIN <= d <= DIGIT_MAX
}

/// Both digits of a PIN are valid.
pub open spec fn pin_in_range(p: [u8; 2]) -> bool {
    digit_in_range(p[0]) && digit_in_range(p[1])
}

/// Derive the session PIN from two independent random draws.
///
/// Each digit is `draw % DIGIT_MAX + DIGIT_MIN`, so it always lies in
/// `DIGIT_MIN..=DIGIT_MAX`; the function cannot fail.
pub fn generate_pin(draw0: u32, draw1: u32) -> (r: [u8; 2])
    ensures
        r[0] == draw0 % (DIGIT_MAX as u32) + DIGIT_MIN,
        r[1] == draw1 % (DIGIT_MAX as u32) + DIGIT_MIN,
        pin_in_range(r),
{
    let d0: u32 = draw0 % (DIGIT_MAX as u32) + (DIGIT_MIN as u32);
    let d1: u32 = draw1 % (DIGIT_MAX as u32) + (DIGIT_MIN as u32);
    [d0 as u8, d1 as u8]
}

} // verus!
