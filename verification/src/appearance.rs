//! The two appearances of the two-phase reaction.
//!
//! Each dispatched action sets an attention-grabbing "impact" appearance on
//! its target, holds it briefly, and reverts to a calmer "resting"
//! appearance. An appearance is a small bundle of numeric effect parameters;
//! the chromaticity coordinates are carried in milli-units (a coordinate of
//! 0.2 is 200 milli-units) so that the bundle stays exact integer data.

use vstd::prelude::*;

verus! {

/// Effect parameters of one target appearance.
#[derive(Clone, Copy, Debug, PartialEq, Eq, Structural)]
pub struct Appearance {
    /// Brightness level, 0..=255.
    pub brightness: u8,
    /// Hue angle in the target's hue scale.
    pub hue: u16,
    /// Color saturation, 0..=255.
    pub saturation: u8,
    /// Chromaticity x coordinate, in milli-units (0..=1000).
    pub x_milli: u16,
    /// Chromaticity y coordinate, in milli-units (0..=1000).
    pub y_milli: u16,
}

/// The appearance set at an action's onset: full brightness, a cold hue,
/// low saturation.
pub fn impact_appearance() -> (a: Appearance)
    ensures
        a == (Appearance {
            brightness: 255,
            hue: 41000,
            saturation: 70,
            x_milli: 200,
            y_milli: 200,
        }),
{
    Appearance { brightness: 255, hue: 41000, saturation: 70, x_milli: 200, y_milli: 200 }
}

/// The appearance reverted to after the hold: dim, warm and saturated.
pub fn resting_appearance() -> (a: Appearance)
    ensures
        a == (Appearance {
            brightness: 70,
            hue: 45555,
            saturation: 200,
            x_milli: 800,
            y_milli: 800,
        }),
{
    Appearance { brightness: 70, hue: 45555, saturation: 200, x_milli: 800, y_milli: 800 }
}

} // verus!
