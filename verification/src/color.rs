use vstd::prelude::*;
use crate::attributes::ColorAttributes;

verus! {

/// The channel value of a fully opaque color.
pub const OPAQUE: u8 = 255;

/// A color as the inspector edits it: four channels, eight bits each.
#[derive(Clone, Copy, Debug, PartialEq, Eq, Structural)]
pub struct Rgba {
    pub red: u8,
    pub green: u8,
    pub blue: u8,
    pub alpha: u8,
}

impl Rgba {
    /// A fully opaque color from its three color channels.
    pub fn opaque(red: u8, green: u8, blue: u8) -> (r: Rgba)
        ensures
            r == (Rgba { red, green, blue, alpha: OPAQUE }),
    {
        Rgba { red, green, blue, alpha: OPAQUE }
    }
}

/// Applies the result of one color-picker interaction to a color.
///
/// With the alpha channel editable, the picked color is taken whole;
/// without it, only the three color channels are taken and the color
/// becomes fully opaque, whatever its alpha channel was before.
pub fn apply_color_edit(attrs: &ColorAttributes, picked: Rgba) -> (r: Rgba)
    ensures
        attrs.alpha ==> r == picked,
        !attrs.alpha ==> r == (Rgba {
            red: picked.red,
            green: picked.green,
            blue: picked.blue,
            alpha: OPAQUE,
        }),
{
    if attrs.alpha {
        picked
    } else {
        Rgba::opaque(picked.red, picked.green, picked.blue)
    }
}

} // verus!
