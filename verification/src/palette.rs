//! The colours in which the eight channels are drawn, from violet for the
//! shortest wavelength to red for the longest.

use vstd::prelude::*;

verus! {

/// A colour, by its red, green and blue.
#[derive(Clone, Copy, Debug, PartialEq, Eq, Structural)]
pub struct Rgb {
    pub red: u8,
    pub green: u8,
    pub blue: u8,
}

/// The colour of bar `index`: violet, indigo, blue, cyan, green, yellow,
/// orange and red for bars 1 to 8, and black for any other index.
pub open spec fn bar_rgb(index: i32) -> Rgb {
    if index == 1 {
        Rgb { red: 0xEE, green: 0x82, blue: 0xEE }
    } else if index == 2 {
        Rgb { red: 0x4B, green: 0x00, blue: 0x82 }
    } else if index == 3 {
        Rgb { red: 0x00, green: 0x00, blue: 0xFF }
    } else if index == 4 {
        Rgb { red: 0x00, green: 0xFF, blue: 0xFF }
    } else if index == 5 {
        Rgb { red: 0x00, green: 0x80, blue: 0x00 }
    } else if index == 6 {
        Rgb { red: 0xFF, green: 0xFF, blue: 0x00 }
    } else if index == 7 {
        Rgb { red: 0xFF, green: 0xA5, blue: 0x00 }
    } else if index == 8 {
        Rgb { red: 0xFF, green: 0x00, blue: 0x00 }
    } else {
        Rgb { red: 0x00, green: 0x00, blue: 0x00 }
    }
}

/// The colour of bar `index`.
pub fn bar_color(index: i32) -> (color: Rgb)
    ensures
        color == bar_rgb(index),
{
    match index {
        1 => Rgb { red: 0xEE, green: 0x82, blue: 0xEE },
        2 => Rgb { red: 0x4B, green: 0x00, blue: 0x82 },
        3 => Rgb { red: 0x00, green: 0x00, blue: 0xFF },
        4 => Rgb { red: 0x00, green: 0xFF, blue: 0xFF },
        5 => Rgb { red: 0x00, green: 0x80, blue: 0x00 },
        6 => Rgb { red: 0xFF, green: 0xFF, blue: 0x00 },
        7 => Rgb { red: 0xFF, green: 0xA5, blue: 0x00 },
        8 => Rgb { red: 0xFF, green: 0x00, blue: 0x00 },
        _ => Rgb { red: 0x00, green: 0x00, blue: 0x00 },
    }
}

/// Each of the bars 1 to 8 has a colour of its own, and none of them is the
/// black of the other indices.
pub proof fn law_bar_colors_differ(i: i32, j: i32)
    requires
        1 <= i <= 8,
        i != j,
    ensures
        bar_rgb(i) != bar_rgb(j),
{
}

} // verus!
