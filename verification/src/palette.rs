//! The sixteen-colour palette: from a palette index to the colour code that
//! the display hardware knows.

use vstd::prelude::*;

verus! {

/// The hardware code of palette entry `k`, for `k` below 16. The first
/// eight entries are the dark colours, whose codes are their own indices,
/// but for brown at index 6, which has code 0x14. The last eight are the
/// bright colours, with codes 0x38 to 0x3F.
pub open spec fn palette_entry(k: int) -> int {
    if k == 6 {
        0x14
    } else if k < 8 {
        k
    } else {
        0x30 + k
    }
}

/// The hardware colour code for a palette index; indices wrap around
/// after sixteen entries.
pub fn get_palette_color(index: u8) -> (code: u8)
    ensures
        code == palette_entry(index as int % 16),
{
    let k: u8 = index % 16;
    if k == 0 {
        0x00
    } else if k == 1 {
        0x01
    } else if k == 2 {
        0x02
    } else if k == 3 {
        0x03
    } else if k == 4 {
        0x04
    } else if k == 5 {
        0x05
    } else if k == 6 {
        0x14
    } else if k == 7 {
        0x07
    } else if k == 8 {
        0x38
    } else if k == 9 {
        0x39
    } else if k == 10 {
        0x3A
    } else if k == 11 {
        0x3B
    } else if k == 12 {
        0x3C
    } else if k == 13 {
        0x3D
    } else if k == 14 {
        0x3E
    } else {
        0x3F
    }
}

} // verus!
