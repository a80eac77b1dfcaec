use vstd::prelude::*;

use crate::direction::{cardinal_bit, opposite, Direction};

verus! {

/// A placement around the launch point: one of the four diagonal corners,
/// where a bundle of charges can stand, or one of the four cardinals.
#[derive(Debug, Clone, Copy, PartialEq, Eq, Hash, Structural)]
pub enum LayoutDirection {
    NorthWest,
    NorthEast,
    SouthWest,
    SouthEast,
    North,
    South,
    West,
    East,
}

/// The cardinal bits of a diagonal corner (North 1, South 2, East 4, West 8):
/// North|West = 9, North|East = 5, South|West = 10, South|East = 6.
/// A cardinal placement has no corner bits.
pub open spec fn layout_bits(l: LayoutDirection) -> u8 {
    match l {
        LayoutDirection::NorthWest => 9,
        LayoutDirection::NorthEast => 5,
        LayoutDirection::SouthWest => 10,
        LayoutDirection::SouthEast => 6,
        _ => 0,
    }
}

/// Whether a set of cardinal bits holds every bit of `mask`.
pub open spec fn holds_all(bits: u8, mask: u8) -> bool {
    bits & mask == mask
}

/// The first diagonal corner, in the order North-West, North-East,
/// South-West, whose two cardinal bits are both in `bits`; South-East when
/// none is.
pub open spec fn layout_of_bits(bits: u8) -> LayoutDirection {
    if holds_all(bits, 9) {
        LayoutDirection::NorthWest
    } else if holds_all(bits, 5) {
        LayoutDirection::NorthEast
    } else if holds_all(bits, 10) {
        LayoutDirection::SouthWest
    } else {
        LayoutDirection::SouthEast
    }
}

/// Whether `d` is one of the two cardinal components of the corner `l`.
pub open spec fn has_component(l: LayoutDirection, d: Direction) -> bool {
    match l {
        LayoutDirection::NorthWest => d == Direction::North || d == Direction::West,
        LayoutDirection::NorthEast => d == Direction::North || d == Direction::East,
        LayoutDirection::SouthWest => d == Direction::South || d == Direction::West,
        LayoutDirection::SouthEast => d == Direction::South || d == Direction::East,
        _ => false,
    }
}

proof fn lemma_corner_bits()
    by (bit_vector)
    ensures
        1u8 | 8u8 == 9u8,
        1u8 | 4u8 == 5u8,
        2u8 | 8u8 == 10u8,
        2u8 | 4u8 == 6u8,
{
}

/// The cardinal bits of a layout direction: the union of a corner's two
/// cardinal bits, zero for a cardinal placement.
pub fn layout_direction_to_cardinal_bits(dir: LayoutDirection) -> (r: u8)
    ensures
        r == layout_bits(dir),
{
    proof {
        lemma_corner_bits();
    }
    match dir {
        LayoutDirection::NorthWest => Direction::North.bits() | Direction::West.bits(),
        LayoutDirection::NorthEast => Direction::North.bits() | Direction::East.bits(),
        LayoutDirection::SouthWest => Direction::South.bits() | Direction::West.bits(),
        LayoutDirection::SouthEast => Direction::South.bits() | Direction::East.bits(),
        _ => 0,
    }
}

/// The diagonal corner named by a set of cardinal bits; see `layout_of_bits`.
pub fn cardinal_bits_to_layout_direction(bits: u8) -> (r: LayoutDirection)
    ensures
        r == layout_of_bits(bits),
{
    proof {
        lemma_corner_bits();
    }
    let n = Direction::North.bits();
    let s = Direction::South.bits();
    let w = Direction::West.bits();
    let e = Direction::East.bits();
    if (bits & (n | w)) == (n | w) {
        LayoutDirection::NorthWest
    } else if (bits & (n | e)) == (n | e) {
        LayoutDirection::NorthEast
    } else if (bits & (s | w)) == (s | w) {
        LayoutDirection::SouthWest
    } else {
        LayoutDirection::SouthEast
    }
}

} // verus!
