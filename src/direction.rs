use vstd::prelude::*;

verus! {

/// One of the four cardinal directions of the horizontal plane.
#[derive(Debug, Clone, Copy, PartialEq, Eq, Hash, Structural)]
pub enum Direction {
    North,
    South,
    West,
    East,
}

/// The single bit that stands for a cardinal direction in the four-bit
/// cardinal universe: North 1, South 2, East 4, West 8.
pub open spec fn cardinal_bit(d: Direction) -> u8 {
    match d {
        Direction::North => 1,
        Direction::South => 2,
        Direction::East => 4,
        Direction::West => 8,
    }
}

/// The direction that points the other way.
pub open spec fn opposite(d: Direction) -> Direction {
    match d {
        Direction::North => Direction::South,
        Direction::South => Direction::North,
        Direction::West => Direction::East,
        Direction::East => Direction::West,
    }
}

impl Direction {
    /// The direction that points the other way.
    pub fn invert(&self) -> (r: Direction)
        ensures
            r == opposite(*self),
    {
        match self {
            Direction::North => Direction::South,
            Direction::South => Direction::North,
            Direction::West => Direction::East,
            Direction::East => Direction::West,
        }
    }

    /// The direction's bit in the four-bit cardinal universe.
    pub fn bits(&self) -> (r: u8)
        ensures
            r == cardinal_bit(*self),
    {
        match self {
            Direction::North => 1,
            Direction::South => 2,
            Direction::East => 4,
            Direction::West => 8,
        }
    }
}

impl std::ops::BitOr for Direction {
    type Output = u8;

    /// The union of the two directions' bits.
    fn bitor(self, rhs: Direction) -> (r: u8) {
        self.bits() | rhs.bits()
    }
}

impl vstd::std_specs::ops::BitOrSpecImpl for Direction {
    open spec fn obeys_bitor_spec() -> bool {
        true
    }

    open spec fn bitor_req(self, rhs: Direction) -> bool {
        true
    }

    open spec fn bitor_spec(self, rhs: Direction) -> u8 {
        cardinal_bit(self) | cardinal_bit(rhs)
    }
}

impl std::ops::BitAnd for Direction {
    type Output = u8;

    /// The intersection of the two directions' bits.
    fn bitand(self, rhs: Direction) -> (r: u8) {
        self.bits() & rhs.bits()
    }
}

impl vstd::std_specs::ops::BitAndSpecImpl for Direction {
    open spec fn obeys_bitand_spec() -> bool {
        true
    }

    open spec fn bitand_req(self, rhs: Direction) -> bool {
        true
    }

    open spec fn bitand_spec(self, rhs: Direction) -> u8 {
        cardinal_bit(self) & cardinal_bit(rhs)
    }
}

impl std::ops::Not for Direction {
    type Output = u8;

    /// The complement of the direction's bit over all eight bits of a `u8`.
    fn not(self) -> (r: u8) {
        !self.bits()
    }
}

impl vstd::std_specs::ops::NotSpecImpl for Direction {
    open spec fn obeys_not_spec() -> bool {
        true
    }

    open spec fn not_req(self) -> bool {
        true
    }

    open spec fn not_spec(self) -> u8 {
        !cardinal_bit(self)
    }
}

} // verus!
