//! Hues, in whole degrees round the colour wheel: the integer steps of the
//! colour-cycling display mode and of the conversion between colour models.

use vstd::prelude::*;

verus! {

/// The degrees of a full turn of the colour wheel.
pub const FULL_TURN: i32 = 360;

/// The degrees of one of the six sectors of the colour wheel.
pub const SECTOR: i32 = 60;

/// The hue that follows `hue` when the colour cycles: one degree further,
/// and from 360 degrees on back to 1 degree.
pub open spec fn hue_after(hue: i32) -> i32 {
    if hue >= FULL_TURN {
        1
    } else {
        (hue + 1) as i32
    }
}

/// A hue brought back by one turn where it lies below zero or above 360
/// degrees.
pub open spec fn hue_wrapped(hue: i32) -> int {
    if hue < 0 {
        hue + FULL_TURN
    } else if hue > FULL_TURN {
        hue - FULL_TURN
    } else {
        hue as int
    }
}

/// The sector of the colour wheel in which a hue lies, counted from red: the
/// hue is taken as the remainder of its division by 360 that has the sign of
/// the hue. A sector holds its upper bound, and sector 0 holds zero as well.
/// A hue below zero lies in no sector.
pub open spec fn sector_of(hue: i32) -> Option<u8> {
    let turned = if hue >= 0 {
        hue as int % (FULL_TURN as int)
    } else {
        -((-hue) % (FULL_TURN as int))
    };
    if turned < 0 {
        None
    } else if turned == 0 {
        Some(0u8)
    } else {
        Some(((turned - 1) / (SECTOR as int)) as u8)
    }
}

/// Steps the hue of the colour-cycling mode by one degree.
pub fn next_hue(hue: i32) -> (next: i32)
    ensures
        next == hue_after(hue),
{
    if hue >= FULL_TURN {
        1
    } else {
        hue + 1
    }
}

/// Brings a hue back by one turn where it lies below zero or above 360
/// degrees.
pub fn wrap_hue(hue: i32) -> (wrapped: i32)
    ensures
        wrapped == hue_wrapped(hue),
{
    if hue < 0 {
        hue + FULL_TURN
    } else if hue > FULL_TURN {
        hue - FULL_TURN
    } else {
        hue
    }
}

/// The sector of the colour wheel in which a hue lies, if it lies in one.
pub fn hue_sector(hue: i32) -> (sector: Option<u8>)
    ensures
        sector == sector_of(hue),
        sector matches Some(s) ==> s < 6,
{
    if hue < 0 {
        if hue == i32::MIN {
            /* i32::MIN is no multiple of 360 */
            assert(0x8000_0000int % 360 == 128);
            return None;
        }
        let turned: i32 = (-hue) % FULL_TURN;
        if turned == 0 {
            Some(0)
        } else {
            None
        }
    } else {
        let turned: i32 = hue % FULL_TURN;
        if turned <= SECTOR {
            Some(0)
        } else if turned <= 2 * SECTOR {
            Some(1)
        } else if turned <= 3 * SECTOR {
            Some(2)
        } else if turned <= 4 * SECTOR {
            Some(3)
        } else if turned <= 5 * SECTOR {
            Some(4)
        } else {
            Some(5)
        }
    }
}

} // verus!
