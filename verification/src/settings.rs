use vstd::prelude::*;

verus! {

/// Smallest pixel scale of the desktop companion.
pub const MIN_PIXEL_SCALE: u32 = 2;

/// Largest pixel scale of the desktop companion.
pub const MAX_PIXEL_SCALE: u32 = 8;

/// The pixel scale kept from saved preferences: preferences saved with the
/// furnished scene go back to the compact size; others are limited to 2..=8.
pub open spec fn spec_settled_scale(saved: u32, had_scene: bool) -> u32 {
    if had_scene {
        MIN_PIXEL_SCALE
    } else if saved < MIN_PIXEL_SCALE {
        MIN_PIXEL_SCALE
    } else if saved > MAX_PIXEL_SCALE {
        MAX_PIXEL_SCALE
    } else {
        saved
    }
}

pub fn settled_scale(saved: u32, had_scene: bool) -> (s: u32)
    ensures
        s == spec_settled_scale(saved, had_scene),
        MIN_PIXEL_SCALE <= s <= MAX_PIXEL_SCALE,
{
    let scale = if had_scene {
        MIN_PIXEL_SCALE
    } else {
        saved
    };
    if scale < MIN_PIXEL_SCALE {
        MIN_PIXEL_SCALE
    } else if scale > MAX_PIXEL_SCALE {
        MAX_PIXEL_SCALE
    } else {
        scale
    }
}

} // verus!
