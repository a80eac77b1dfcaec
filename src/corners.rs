use vstd::prelude::*;

use crate::direction::{cardinal_bit, opposite, Direction};
use crate::layout_direction::{
    cardinal_bits_to_layout_direction, has_component, layout_bits,
    layout_direction_to_cardinal_bits, layout_of_bits, LayoutDirection,
};

verus! {

/// The corner that takes the other charge role when the corner `c` keeps
/// its default role and the shot is fired toward `d`.
///
/// A corner that lies behind the shot (it has the component opposite to `d`)
/// is mirrored across the firing axis; a corner that lies toward the shot is
/// answered by the diagonally opposite corner; a cardinal placement, which is
/// no corner, is answered by a fixed corner for each direction.
pub open spec fn partner_corner(d: Direction, c: LayoutDirection) -> LayoutDirection {
    match (d, c) {
        (Direction::North, LayoutDirection::SouthWest) => LayoutDirection::SouthEast,
        (Direction::North, LayoutDirection::SouthEast) => LayoutDirection::SouthWest,
        (Direction::South, LayoutDirection::NorthWest) => LayoutDirection::NorthEast,
        (Direction::South, LayoutDirection::NorthEast) => LayoutDirection::NorthWest,
        (Direction::East, LayoutDirection::NorthWest) => LayoutDirection::SouthWest,
        (Direction::East, LayoutDirection::SouthWest) => LayoutDirection::NorthWest,
        (Direction::West, LayoutDirection::NorthEast) => LayoutDirection::SouthEast,
        (Direction::West, LayoutDirection::SouthEast) => LayoutDirection::NorthEast,
        (Direction::North, LayoutDirection::NorthWest) => LayoutDirection::SouthEast,
        (Direction::North, LayoutDirection::NorthEast) => LayoutDirection::SouthWest,
        (Direction::South, LayoutDirection::SouthWest) => LayoutDirection::NorthEast,
        (Direction::South, LayoutDirection::SouthEast) => LayoutDirection::NorthWest,
        (Direction::East, LayoutDirection::NorthEast) => LayoutDirection::SouthWest,
        (Direction::East, LayoutDirection::SouthEast) => LayoutDirection::NorthWest,
        (Direction::West, LayoutDirection::NorthWest) => LayoutDirection::SouthEast,
        (Direction::West, LayoutDirection::SouthWest) => LayoutDirection::NorthEast,
        (Direction::North, _) => LayoutDirection::SouthWest,
        (Direction::South, _) => LayoutDirection::NorthWest,
        (Direction::East, _) => LayoutDirection::NorthWest,
        (Direction::West, _) => LayoutDirection::NorthEast,
    }
}

/// The default corner of the blue bundle when the geometry names none.
pub open spec fn blue_corner_or_default(c: Option<LayoutDirection>) -> LayoutDirection {
    match c {
        Some(l) => l,
        None => LayoutDirection::NorthEast,
    }
}

/// The default corner of the red bundle when the geometry names none.
pub open spec fn red_corner_or_default(c: Option<LayoutDirection>) -> LayoutDirection {
    match c {
        Some(l) => l,
        None => LayoutDirection::NorthWest,
    }
}

/// The (red, blue) corners for a shot toward `d`: the blue bundle keeps its
/// default corner unless that corner has `d` as a component; then the red
/// bundle keeps its default corner instead. The other role goes to the
/// partner of the corner that was kept.
pub open spec fn duper_corners(
    d: Direction,
    default_red: Option<LayoutDirection>,
    default_blue: Option<LayoutDirection>,
) -> (LayoutDirection, LayoutDirection) {
    let blue = blue_corner_or_default(default_blue);
    let red = red_corner_or_default(default_red);
    if !has_component(blue, d) {
        (partner_corner(d, blue), blue)
    } else {
        (red, partner_corner(d, red))
    }
}

/// The cardinal bits left over by a direction (`a`) and a corner (`b`),
/// joined with the opposite direction's bit (`i`).
pub open spec fn partner_bits(a: u8, b: u8, i: u8) -> u8 {
    ((!(a | b)) & 15u8) | i
}

proof fn lemma_partner_bit_table(a: u8, b: u8, i: u8)
    by (bit_vector)
    ensures
        (a == 1u8 && b == 9u8 && i == 2u8) ==> (a & b != 0u8
            && partner_bits(a, b, i) & 9u8 != 9u8
            && partner_bits(a, b, i) & 5u8 != 5u8
            && partner_bits(a, b, i) & 10u8 != 10u8),
        (a == 1u8 && b == 5u8 && i == 2u8) ==> (a & b != 0u8
            && partner_bits(a, b, i) & 9u8 != 9u8
            && partner_bits(a, b, i) & 5u8 != 5u8
            && partner_bits(a, b, i) & 10u8 == 10u8),
        (a == 1u8 && b == 10u8 && i == 2u8) ==> (a & b == 0u8
            && partner_bits(a, b, i) & 9u8 != 9u8
            && partner_bits(a, b, i) & 5u8 != 5u8
            && partner_bits(a, b, i) & 10u8 != 10u8),
        (a == 1u8 && b == 6u8 && i == 2u8) ==> (a & b == 0u8
            && partner_bits(a, b, i) & 9u8 != 9u8
            && partner_bits(a, b, i) & 5u8 != 5u8
            && partner_bits(a, b, i) & 10u8 == 10u8),
        (a == 1u8 && b == 0u8 && i == 2u8) ==> (a & b == 0u8
            && partner_bits(a, b, i) & 9u8 != 9u8
            && partner_bits(a, b, i) & 5u8 != 5u8
            && partner_bits(a, b, i) & 10u8 == 10u8),
        (a == 2u8 && b == 9u8 && i == 1u8) ==> (a & b == 0u8
            && partner_bits(a, b, i) & 9u8 != 9u8
            && partner_bits(a, b, i) & 5u8 == 5u8
            && partner_bits(a, b, i) & 10u8 != 10u8),
        (a == 2u8 && b == 5u8 && i == 1u8) ==> (a & b == 0u8
            && partner_bits(a, b, i) & 9u8 == 9u8
            && partner_bits(a, b, i) & 5u8 != 5u8
            && partner_bits(a, b, i) & 10u8 != 10u8),
        (a == 2u8 && b == 10u8 && i == 1u8) ==> (a & b != 0u8
            && partner_bits(a, b, i) & 9u8 != 9u8
            && partner_bits(a, b, i) & 5u8 == 5u8
            && partner_bits(a, b, i) & 10u8 != 10u8),
        (a == 2u8 && b == 6u8 && i == 1u8) ==> (a & b != 0u8
            && partner_bits(a, b, i) & 9u8 == 9u8
            && partner_bits(a, b, i) & 5u8 != 5u8
            && partner_bits(a, b, i) & 10u8 != 10u8),
        (a == 2u8 && b == 0u8 && i == 1u8) ==> (a & b == 0u8
            && partner_bits(a, b, i) & 9u8 == 9u8
            && partner_bits(a, b, i) & 5u8 == 5u8
            && partner_bits(a, b, i) & 10u8 != 10u8),
        (a == 4u8 && b == 9u8 && i == 8u8) ==> (a & b == 0u8
            && partner_bits(a, b, i) & 9u8 != 9u8
            && partner_bits(a, b, i) & 5u8 != 5u8
            && partner_bits(a, b, i) & 10u8 == 10u8),
        (a == 4u8 && b == 5u8 && i == 8u8) ==> (a & b != 0u8
            && partner_bits(a, b, i) & 9u8 != 9u8
            && partner_bits(a, b, i) & 5u8 != 5u8
            && partner_bits(a, b, i) & 10u8 == 10u8),
        (a == 4u8 && b == 10u8 && i == 8u8) ==> (a & b == 0u8
            && partner_bits(a, b, i) & 9u8 == 9u8
            && partner_bits(a, b, i) & 5u8 != 5u8
            && partner_bits(a, b, i) & 10u8 != 10u8),
        (a == 4u8 && b == 6u8 && i == 8u8) ==> (a & b != 0u8
            && partner_bits(a, b, i) & 9u8 == 9u8
            && partner_bits(a, b, i) & 5u8 != 5u8
            && partner_bits(a, b, i) & 10u8 != 10u8),
        (a == 4u8 && b == 0u8 && i == 8u8) ==> (a & b == 0u8
            && partner_bits(a, b, i) & 9u8 == 9u8
            && partner_bits(a, b, i) & 5u8 != 5u8
            && partner_bits(a, b, i) & 10u8 == 10u8),
        (a == 8u8 && b == 9u8 && i == 4u8) ==> (a & b != 0u8
            && partner_bits(a, b, i) & 9u8 != 9u8
            && partner_bits(a, b, i) & 5u8 != 5u8
            && partner_bits(a, b, i) & 10u8 != 10u8),
        (a == 8u8 && b == 5u8 && i == 4u8) ==> (a & b == 0u8
            && partner_bits(a, b, i) & 9u8 != 9u8
            && partner_bits(a, b, i) & 5u8 != 5u8
            && partner_bits(a, b, i) & 10u8 != 10u8),
        (a == 8u8 && b == 10u8 && i == 4u8) ==> (a & b != 0u8
            && partner_bits(a, b, i) & 9u8 != 9u8
            && partner_bits(a, b, i) & 5u8 == 5u8
            && partner_bits(a, b, i) & 10u8 != 10u8),
        (a == 8u8 && b == 6u8 && i == 4u8) ==> (a & b == 0u8
            && partner_bits(a, b, i) & 9u8 != 9u8
            && partner_bits(a, b, i) & 5u8 == 5u8
            && partner_bits(a, b, i) & 10u8 != 10u8),
        (a == 8u8 && b == 0u8 && i == 4u8) ==> (a & b == 0u8
            && partner_bits(a, b, i) & 9u8 != 9u8
            && partner_bits(a, b, i) & 5u8 == 5u8
            && partner_bits(a, b, i) & 10u8 != 10u8),
{
}

/// The bit formula for a partner corner agrees with `partner_corner`, and a
/// direction shares a bit with a corner exactly when it is one of its components.
proof fn lemma_partner_bits(d: Direction, c: LayoutDirection)
    ensures
        (cardinal_bit(d) & layout_bits(c) == 0) == !has_component(c, d),
        layout_of_bits(partner_bits(cardinal_bit(d), layout_bits(c), cardinal_bit(opposite(d))))
            == partner_corner(d, c),
{
    lemma_partner_bit_table(cardinal_bit(d), layout_bits(c), cardinal_bit(opposite(d)));
}

/// Chooses the corners of the red and blue bundles for a shot toward
/// `direction`, from the geometry's default corners (North-West for red and
/// North-East for blue when it names none). The two bundles never share a
/// corner.
pub fn resolve_duper_corners(
    direction: Direction,
    default_red: Option<LayoutDirection>,
    default_blue: Option<LayoutDirection>,
) -> (r: (LayoutDirection, LayoutDirection))
    ensures
        r == duper_corners(direction, default_red, default_blue),
        r.0 != r.1,
{
    let blue_duper = match default_blue {
        Some(l) => l,
        None => LayoutDirection::NorthEast,
    };
    let red_duper = match default_red {
        Some(l) => l,
        None => LayoutDirection::NorthWest,
    };
    let dir_bits = direction.bits();
    let inverted = direction.invert().bits();
    let blue_bits = layout_direction_to_cardinal_bits(blue_duper);
    proof {
        lemma_partner_bits(direction, blue_duper);
        lemma_partner_bits(direction, red_duper);
    }
    if dir_bits & blue_bits == 0 {
        let other = !(dir_bits | blue_bits) & 0b1111;
        let red = cardinal_bits_to_layout_direction(other | inverted);
        (red, blue_duper)
    } else {
        let red_bits = layout_direction_to_cardinal_bits(red_duper);
        let other = !(dir_bits | red_bits) & 0b1111;
        let blue = cardinal_bits_to_layout_direction(other | inverted);
        (red_duper, blue)
    }
}

/// The four bundle positions of a cannon, one per diagonal corner.
#[derive(Debug, Clone, Copy, PartialEq)]
pub struct CornerSet<T> {
    pub north_west: T,
    pub north_east: T,
    pub south_west: T,
    pub south_east: T,
}

impl<T: Copy> CornerSet<T> {
    /// The position at a diagonal corner; none for a cardinal placement.
    pub open spec fn spec_at(&self, l: LayoutDirection) -> Option<T> {
        match l {
            LayoutDirection::NorthWest => Some(self.north_west),
            LayoutDirection::NorthEast => Some(self.north_east),
            LayoutDirection::SouthWest => Some(self.south_west),
            LayoutDirection::SouthEast => Some(self.south_east),
            _ => None,
        }
    }

    /// The position at a diagonal corner; `None` for a cardinal placement.
    pub fn at(&self, l: LayoutDirection) -> (r: Option<T>)
        ensures
            r == self.spec_at(l),
    {
        match l {
            LayoutDirection::NorthWest => Some(self.north_west),
            LayoutDirection::NorthEast => Some(self.north_east),
            LayoutDirection::SouthWest => Some(self.south_west),
            LayoutDirection::SouthEast => Some(self.south_east),
            _ => None,
        }
    }
}

} // verus!
