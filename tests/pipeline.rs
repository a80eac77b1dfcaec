use pearl_calculator_core::candidates::CandidateMap;
use pearl_calculator_core::entity::{fuse_after_tick, move_outcome};
use pearl_calculator_core::movement::{
    MovementLegacy, MovementMidEra, MovementPost1212, PearlMovement, PearlVersion, TickStep,
};
use pearl_calculator_core::ranking::{BestHit, Hit, RankedResults, ResultKey};
use pearl_calculator_core::settings::selected_cannon_index;
use pearl_calculator_core::ticks::{sorted_unique_ticks, tick_mask};

fn near(a: u64, b: u64) -> bool {
    (f64::from_bits(a) - f64::from_bits(b)).abs() < 1e-10
}

fn best_tick(hits: &[(u32, f64)]) -> Option<u32> {
    let mut best = BestHit::new();
    for &(tick, distance) in hits {
        let hit = Hit { tick, distance_bits: distance.to_bits() };
        let close = best.kept().map_or(false, |k| near(hit.distance_bits, k.distance_bits));
        best.offer(hit, close);
    }
    best.kept().map(|h| h.tick)
}

fn rank(results: &[(u32, u32, u32, u32, f64)]) -> Vec<usize> {
    let mut ranked = RankedResults::new();
    for (index, &(red, blue, vertical, tick, distance)) in results.iter().enumerate() {
        let key = ResultKey { red, blue, vertical, tick, distance_bits: distance.to_bits() };
        let close =
            ranked.kept_for(&key).map_or(false, |k| near(key.distance_bits, k.distance_bits));
        ranked.offer(key, index, close);
    }
    ranked.into_ranked().into_iter().map(|(_, index)| index).collect()
}

#[test]
fn legacy_and_mid_era_move_first() {
    let full = vec![TickStep::Move, TickStep::Drag, TickStep::Gravity];
    assert_eq!(PearlVersion::Legacy.tick_steps(true), full);
    assert_eq!(PearlVersion::MidEra.tick_steps(true), full);
    assert_eq!(PearlVersion::Legacy.tick_steps(false), vec![TickStep::Move, TickStep::Drag]);
}

#[test]
fn post_1212_moves_last() {
    assert_eq!(
        PearlVersion::Post1212.tick_steps(true),
        vec![TickStep::Gravity, TickStep::Drag, TickStep::Move]
    );
    assert_eq!(PearlVersion::Post1212.tick_steps(false), vec![TickStep::Drag, TickStep::Move]);
}

#[test]
fn versions_differ_in_drag_before_move_and_precision() {
    assert_eq!(PearlVersion::Legacy.drags_before_move(), 0);
    assert_eq!(PearlVersion::MidEra.drags_before_move(), 0);
    assert_eq!(PearlVersion::Post1212.drags_before_move(), 1);
    assert!(PearlVersion::Legacy.reduced_precision());
    assert!(!PearlVersion::MidEra.reduced_precision());
    assert!(!PearlVersion::Post1212.reduced_precision());
}

#[test]
fn movements_name_their_versions() {
    assert_eq!(MovementLegacy::version(), PearlVersion::Legacy);
    assert_eq!(MovementMidEra::version(), PearlVersion::MidEra);
    assert_eq!(MovementPost1212::version(), PearlVersion::Post1212);
}

#[test]
fn landing_while_falling_sets_ground() {
    let o = move_outcome(false, true, false, true);
    assert!(o.on_ground && o.collided_vertically && !o.collided_horizontally);
    assert!(o.stop_y && !o.stop_x && !o.stop_z);
}

#[test]
fn hitting_a_ceiling_is_no_ground() {
    let o = move_outcome(false, true, false, false);
    assert!(!o.on_ground && o.collided_vertically);
}

#[test]
fn horizontal_clip_is_a_horizontal_collision() {
    let o = move_outcome(false, false, true, true);
    assert!(o.collided_horizontally && !o.collided_vertically && !o.on_ground);
    assert!(o.stop_z && !o.stop_x);
    let free = move_outcome(false, false, false, true);
    assert!(!free.collided_horizontally && !free.collided_vertically && !free.on_ground);
}

#[test]
fn fuse_counts_down_to_zero() {
    assert_eq!(fuse_after_tick(80), 79);
    assert_eq!(fuse_after_tick(1), 0);
    assert_eq!(fuse_after_tick(0), 0);
}

#[test]
fn candidate_map_groups_ticks_by_triple() {
    let mut m = CandidateMap::new(u32::MAX, None);
    m.record(3, 4, 0, 10);
    m.record(5, 1, 0, 11);
    m.record(3, 4, 0, 12);
    m.record(-1, 4, 0, 13);
    m.record(3, 4, -2, 14);
    assert_eq!(m.len(), 2);
    let c = m.into_candidates();
    assert_eq!((c[0].red, c[0].blue, c[0].vertical), (3, 4, 0));
    assert_eq!(c[0].ticks, vec![10, 12]);
    let mut unordered = CandidateMap::new(u32::MAX, None);
    unordered.record(1, 1, 0, 9);
    unordered.record(1, 1, 0, 4);
    unordered.record(1, 1, 0, 9);
    unordered.record(1, 1, 0, 6);
    assert_eq!(unordered.into_candidates()[0].ticks, vec![4, 6, 9]);
    assert_eq!((c[1].red, c[1].blue, c[1].vertical), (5, 1, 0));
    assert_eq!(c[1].ticks, vec![11]);
}

#[test]
fn candidate_map_starts_empty() {
    let m = CandidateMap::new(u32::MAX, None);
    assert_eq!(m.len(), 0);
    assert!(m.into_candidates().is_empty());
}

#[test]
fn ticks_sorted_and_deduplicated() {
    assert_eq!(sorted_unique_ticks(&vec![12, 3, 12, 7, 3, 1]), vec![1, 3, 7, 12]);
    assert_eq!(sorted_unique_ticks(&vec![]), Vec::<u32>::new());
    assert_eq!(sorted_unique_ticks(&vec![5, 5, 5]), vec![5]);
}

#[test]
fn mask_marks_candidate_ticks() {
    assert_eq!(tick_mask(&vec![3, 1]), vec![false, true, false, true]);
    assert_eq!(tick_mask(&vec![0]), vec![true]);
    assert_eq!(tick_mask(&vec![2, 2]), vec![false, false, true]);
    assert!(tick_mask(&vec![]).is_empty());
}

#[test]
fn strictly_closer_later_tick_wins() {
    assert_eq!(best_tick(&[(10, 0.75), (11, 0.25)]), Some(11));
}

#[test]
fn tie_within_band_goes_to_earlier_tick() {
    assert_eq!(best_tick(&[(1, 1.0000000000000002), (2, 1.0)]), Some(1));
    assert_eq!(best_tick(&[(2, 1.0), (1, 1.0000000000000002)]), Some(1));
    assert_eq!(best_tick(&[(1, 1.0 + 5e-11), (2, 1.0)]), Some(1));
}

#[test]
fn distance_outside_band_beats_earlier_tick() {
    assert_eq!(best_tick(&[(1, 1.0 + 1e-9), (2, 1.0)]), Some(2));
}

#[test]
fn equal_distance_prefers_earlier_tick() {
    assert_eq!(best_tick(&[(12, 0.5), (9, 0.5), (11, 0.5)]), Some(9));
    assert_eq!(best_tick(&[]), None);
}

#[test]
fn distance_bits_order_as_values() {
    assert_eq!(best_tick(&[(1, 3.0), (2, 0.0), (3, 1e-9), (4, 2.5)]), Some(2));
    assert_eq!(best_tick(&[(1, 3.0), (3, 1e-9), (4, 2.5)]), Some(3));
}

#[test]
fn ranking_sorts_by_distance() {
    let results = [(1, 1, 0, 10, 2.0), (2, 1, 0, 12, 0.5), (3, 0, 0, 9, 1.0)];
    assert_eq!(rank(&results), vec![1, 2, 0]);
}

#[test]
fn ranking_keeps_best_per_triple() {
    let results = [
        (1, 1, 0, 10, 2.0),
        (2, 2, 0, 12, 0.5),
        (1, 1, 0, 11, 1.5),
        (1, 1, 0, 8, 1.5),
        (2, 2, 0, 13, 0.75),
    ];
    assert_eq!(rank(&results), vec![1, 3]);
    assert!(rank(&[]).is_empty());
}

#[test]
fn ranking_tie_within_band_keeps_earlier_tick() {
    let results = [
        (1, 1, 0, 14, 1.0),
        (1, 1, 0, 12, 1.0000000000000002),
        (1, 1, 0, 13, 0.5e-10 + 1.0),
    ];
    assert_eq!(rank(&results), vec![1]);
}

#[test]
fn ranking_keeps_equal_distances_in_input_order() {
    let results = [(4, 0, 0, 20, 1.0), (0, 4, 0, 20, 1.0), (1, 3, 0, 20, 0.5)];
    assert_eq!(rank(&results), vec![2, 0, 1]);
}

#[test]
fn selected_cannon_by_name_or_first() {
    let names = vec!["alpha".to_string(), "beta".to_string(), "beta".to_string()];
    assert_eq!(selected_cannon_index(&names, &"beta".to_string()), Some(1));
    assert_eq!(selected_cannon_index(&names, &"gamma".to_string()), Some(0));
    assert_eq!(selected_cannon_index(&vec![], &"beta".to_string()), None);
}

#[test]
fn candidate_map_refuses_counts_over_limits() {
    let mut m = CandidateMap::new(10, Some(2));
    m.record(10, 10, 2, 5);
    m.record(11, 0, 0, 6);
    m.record(0, 11, 0, 7);
    m.record(1, 1, 3, 8);
    let c = m.into_candidates();
    assert_eq!(c.len(), 1);
    assert_eq!((c[0].red, c[0].blue, c[0].vertical), (10, 10, 2));
    assert_eq!(c[0].ticks, vec![5]);
    let mut unlimited = CandidateMap::new(10, None);
    unlimited.record(0, 0, 500, 1);
    assert_eq!(unlimited.len(), 1);
}
