//! The intensity mapper: a pure, total function from the slider's intensity
//! level to a hardware brightness command and an overlay alpha command.
//!
//! The slider's lower half trades against the monitor's native brightness
//! range: brightness rises twice as fast as the slider and the overlay stays
//! fully transparent. The upper half pins hardware brightness at its maximum
//! and darkens the overlay progressively instead.

use vstd::prelude::*;

verus! {

/// Levels above 100 are clamped to 100 before the mapping formulas apply.
pub open spec fn spec_clamp_level(level: int) -> int {
    if level > 100 {
        100
    } else {
        level
    }
}

/// Hardware brightness command for a level in [0, 100]: twice the level up
/// to the midpoint, pinned at 100 above it.
pub open spec fn spec_brightness(level: int) -> int
    recommends
        0 <= level <= 100,
{
    if level <= 50 {
        2 * level
    } else {
        100
    }
}

/// Overlay alpha command for a level in [0, 100]: fully transparent up to
/// the midpoint, then 5 per step of the level above 50 (up to 250).
pub open spec fn spec_alpha(level: int) -> int
    recommends
        0 <= level <= 100,
{
    if level <= 50 {
        0
    } else {
        5 * (level - 50)
    }
}

/// Maps a slider intensity level to `(brightness command, overlay alpha)`.
/// Pure and total: input above 100 is clamped first, and the commands never
/// leave their documented ranges (brightness 0-100, alpha 0-250).
pub fn map_intensity(level: u8) -> (r: (u8, u8))
    ensures
        r.0 == spec_brightness(spec_clamp_level(level as int)),
        r.1 == spec_alpha(spec_clamp_level(level as int)),
        r.0 <= 100,
        r.1 <= 250,
{
    let l: u8 = if level > 100 {
        100
    } else {
        level
    };
    if l <= 50 {
        (2 * l, 0)
    } else {
        (100, 5 * (l - 50))
    }
}

} // verus!
