use pearl_calculator_core::corners::{resolve_duper_corners, CornerSet};
use pearl_calculator_core::direction::Direction;
use pearl_calculator_core::layout_direction::{
    cardinal_bits_to_layout_direction, layout_direction_to_cardinal_bits, LayoutDirection,
};

#[test]
fn invert_swaps_each_axis() {
    assert_eq!(Direction::North.invert(), Direction::South);
    assert_eq!(Direction::South.invert(), Direction::North);
    assert_eq!(Direction::West.invert(), Direction::East);
    assert_eq!(Direction::East.invert(), Direction::West);
}

#[test]
fn direction_bits_are_distinct_single_bits() {
    assert_eq!(Direction::North.bits(), 1);
    assert_eq!(Direction::South.bits(), 2);
    assert_eq!(Direction::East.bits(), 4);
    assert_eq!(Direction::West.bits(), 8);
    assert_eq!(Direction::North | Direction::West, 9);
    assert_eq!(Direction::North & Direction::North, 1);
    assert_eq!(Direction::North & Direction::South, 0);
    assert_eq!(!Direction::East, 0b1111_1011);
}

#[test]
fn corner_bits_join_their_cardinals() {
    assert_eq!(layout_direction_to_cardinal_bits(LayoutDirection::NorthWest), 9);
    assert_eq!(layout_direction_to_cardinal_bits(LayoutDirection::NorthEast), 5);
    assert_eq!(layout_direction_to_cardinal_bits(LayoutDirection::SouthWest), 10);
    assert_eq!(layout_direction_to_cardinal_bits(LayoutDirection::SouthEast), 6);
    assert_eq!(layout_direction_to_cardinal_bits(LayoutDirection::North), 0);
    assert_eq!(layout_direction_to_cardinal_bits(LayoutDirection::East), 0);
}

#[test]
fn bits_name_the_first_complete_corner() {
    assert_eq!(cardinal_bits_to_layout_direction(9), LayoutDirection::NorthWest);
    assert_eq!(cardinal_bits_to_layout_direction(5), LayoutDirection::NorthEast);
    assert_eq!(cardinal_bits_to_layout_direction(10), LayoutDirection::SouthWest);
    assert_eq!(cardinal_bits_to_layout_direction(6), LayoutDirection::SouthEast);
    assert_eq!(cardinal_bits_to_layout_direction(15), LayoutDirection::NorthWest);
    assert_eq!(cardinal_bits_to_layout_direction(7), LayoutDirection::NorthEast);
    assert_eq!(cardinal_bits_to_layout_direction(14), LayoutDirection::SouthWest);
    assert_eq!(cardinal_bits_to_layout_direction(0), LayoutDirection::SouthEast);
    assert_eq!(cardinal_bits_to_layout_direction(1), LayoutDirection::SouthEast);
}

#[test]
fn default_corners_fire_north() {
    // Blue's default North-East has North as a component: red keeps North-West
    // and blue takes the diagonally opposite corner.
    assert_eq!(
        resolve_duper_corners(Direction::North, None, None),
        (LayoutDirection::NorthWest, LayoutDirection::SouthEast)
    );
}

#[test]
fn default_corners_fire_south() {
    // North-East lies behind a southward shot: blue keeps it, red mirrors it.
    assert_eq!(
        resolve_duper_corners(Direction::South, None, None),
        (LayoutDirection::NorthWest, LayoutDirection::NorthEast)
    );
}

#[test]
fn default_corners_fire_east_and_west() {
    assert_eq!(
        resolve_duper_corners(Direction::East, None, None),
        (LayoutDirection::NorthWest, LayoutDirection::SouthWest)
    );
    assert_eq!(
        resolve_duper_corners(Direction::West, None, None),
        (LayoutDirection::SouthEast, LayoutDirection::NorthEast)
    );
}

#[test]
fn blue_corner_behind_the_shot_is_mirrored_for_red() {
    let blue = Some(LayoutDirection::SouthEast);
    let red = Some(LayoutDirection::NorthWest);
    assert_eq!(
        resolve_duper_corners(Direction::North, red, blue),
        (LayoutDirection::SouthWest, LayoutDirection::SouthEast)
    );
    assert_eq!(
        resolve_duper_corners(Direction::West, red, blue),
        (LayoutDirection::NorthEast, LayoutDirection::SouthEast)
    );
}

#[test]
fn red_corner_kept_when_blue_faces_the_shot() {
    let blue = Some(LayoutDirection::SouthWest);
    assert_eq!(
        resolve_duper_corners(Direction::South, Some(LayoutDirection::NorthEast), blue),
        (LayoutDirection::NorthEast, LayoutDirection::NorthWest)
    );
    assert_eq!(
        resolve_duper_corners(Direction::West, Some(LayoutDirection::SouthEast), blue),
        (LayoutDirection::SouthEast, LayoutDirection::NorthEast)
    );
}

#[test]
fn cardinal_blue_placement_gets_a_fixed_partner() {
    let blue = Some(LayoutDirection::North);
    assert_eq!(
        resolve_duper_corners(Direction::North, None, blue),
        (LayoutDirection::SouthWest, LayoutDirection::North)
    );
    assert_eq!(
        resolve_duper_corners(Direction::West, None, blue),
        (LayoutDirection::NorthEast, LayoutDirection::North)
    );
}

#[test]
fn corner_set_looks_up_diagonals_only() {
    let set = CornerSet { north_west: 1u8, north_east: 2, south_west: 3, south_east: 4 };
    assert_eq!(set.at(LayoutDirection::NorthWest), Some(1));
    assert_eq!(set.at(LayoutDirection::NorthEast), Some(2));
    assert_eq!(set.at(LayoutDirection::SouthWest), Some(3));
    assert_eq!(set.at(LayoutDirection::SouthEast), Some(4));
    assert_eq!(set.at(LayoutDirection::South), None);
}
