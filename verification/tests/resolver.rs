use wheel_picker::resolver::{normalize, resolve};
use wheel_picker::Item;

const TURN: i64 = wheel_picker::resolver::TURN as i64;
const QUARTER_TURN: i64 = wheel_picker::resolver::QUARTER_TURN as i64;

fn items_of(weights: &[u32]) -> Vec<Item> {
    weights.iter().map(|weight| Item { name: format!("item {weight}"), weight: *weight }).collect()
}

/// The winner as floating-point arithmetic finds it, and how far the turned
/// fraction is from the nearest end of a slice.
fn floating_winner(rotation: i64, weights: &[u32]) -> (usize, f64) {
    let pi = std::f64::consts::PI;
    let total: f64 = weights.iter().map(|weight| *weight as f64).sum();
    let angle = rotation as f64 / 1_000_000.0;
    let normalized = ((-pi / 2.0 + angle) % (2.0 * pi) + 2.0 * pi) % (2.0 * pi);
    let fraction = normalized / (2.0 * pi);
    let mut cumulative = 0.0;
    let mut winner = weights.len() - 1;
    let mut found = false;
    let mut margin = fraction.min(1.0 - fraction);
    for (index, weight) in weights.iter().enumerate() {
        cumulative += *weight as f64 / total;
        margin = margin.min((fraction - cumulative).abs());
        if !found && fraction < cumulative {
            winner = index;
            found = true;
        }
    }
    (winner, margin)
}

#[test]
fn units_of_angle() {
    assert_eq!(TURN, 6_283_185);
    assert_eq!(QUARTER_TURN, 1_570_796);
}

#[test]
fn pointer_starts_a_quarter_turn_back() {
    assert_eq!(normalize(0), 4_712_389);
    assert_eq!(normalize(QUARTER_TURN), 0);
    assert_eq!(normalize(QUARTER_TURN - 1), 6_283_184);
    assert_eq!(normalize(QUARTER_TURN + 1), 1);
}

#[test]
fn pointer_angle_wraps_with_every_turn() {
    assert_eq!(normalize(TURN), 4_712_389);
    assert_eq!(normalize(TURN + QUARTER_TURN), 0);
    assert_eq!(normalize(5 * TURN + QUARTER_TURN + 17), 17);
    let expected = (i64::MAX as i128 - QUARTER_TURN as i128).rem_euclid(TURN as i128) as u64;
    assert_eq!(normalize(i64::MAX), expected);
}

#[test]
fn pointer_angle_of_a_backward_rotation_is_not_negative() {
    assert_eq!(normalize(-QUARTER_TURN), 3_141_593);
    assert_eq!(normalize(-1), 4_712_388);
    assert_eq!(normalize(-3 * QUARTER_TURN - 1), 0);
    assert_eq!(normalize(QUARTER_TURN - TURN), 0);
    assert_eq!(normalize(QUARTER_TURN - 7 * TURN + 5), 5);
    let expected = (i64::MIN as i128 - QUARTER_TURN as i128).rem_euclid(TURN as i128) as u64;
    assert_eq!(normalize(i64::MIN), expected);
}

#[test]
fn backward_rotation_resolves_like_the_same_place_forwards() {
    let items = items_of(&[3, 1, 2, 5]);
    let mut rotation = 0;
    while rotation < TURN {
        assert_eq!(resolve(rotation - 4 * TURN, &items), resolve(rotation, &items));
        rotation += 9_973;
    }
    let halves = items_of(&[1, 1]);
    assert_eq!(resolve(-QUARTER_TURN, &halves), 1);
    assert_eq!(resolve(-QUARTER_TURN - 1, &halves), 0);
}

#[test]
fn empty_list_resolves_to_zero() {
    assert_eq!(resolve(0, &Vec::new()), 0);
    assert_eq!(resolve(12_345_678, &Vec::new()), 0);
}

#[test]
fn lone_item_always_wins() {
    let items = items_of(&[4]);
    assert_eq!(resolve(0, &items), 0);
    assert_eq!(resolve(QUARTER_TURN, &items), 0);
    assert_eq!(resolve(QUARTER_TURN - 1, &items), 0);
}

#[test]
fn two_equal_items_split_the_wheel_in_halves() {
    let items = items_of(&[1, 1]);
    assert_eq!(resolve(QUARTER_TURN, &items), 0);
    assert_eq!(resolve(QUARTER_TURN + 3_141_592, &items), 0);
    assert_eq!(resolve(QUARTER_TURN + 3_141_593, &items), 1);
    assert_eq!(resolve(QUARTER_TURN + TURN - 1, &items), 1);
    assert_eq!(resolve(0, &items), 1);
}

#[test]
fn slices_are_as_wide_as_the_weights() {
    let items = items_of(&[1, 2, 1]);
    assert_eq!(resolve(QUARTER_TURN, &items), 0);
    assert_eq!(resolve(QUARTER_TURN + 1_570_796, &items), 0);
    assert_eq!(resolve(QUARTER_TURN + 1_570_797, &items), 1);
    assert_eq!(resolve(QUARTER_TURN + 4_712_388, &items), 1);
    assert_eq!(resolve(QUARTER_TURN + 4_712_389, &items), 2);
    assert_eq!(resolve(QUARTER_TURN + TURN - 1, &items), 2);
}

#[test]
fn weightless_items_fall_back_to_the_last() {
    let items = items_of(&[0, 0, 0]);
    assert_eq!(resolve(QUARTER_TURN, &items), 2);
    assert_eq!(resolve(0, &items), 2);
    assert_eq!(resolve(9_999_999, &items), 2);
}

#[test]
fn weightless_items_never_win_beside_a_weighted_one() {
    let items = items_of(&[0, 5, 0]);
    let mut rotation = 0;
    while rotation < 2 * TURN {
        assert_eq!(resolve(rotation, &items), 1);
        rotation += 9_973;
    }
}

#[test]
fn winner_is_always_an_item_of_the_list() {
    let items = items_of(&[3, 1, 4, 1, 5, 9, 2, 6]);
    let mut rotation = 0;
    while rotation < TURN {
        assert!(resolve(rotation, &items) < items.len());
        rotation += 997;
    }
    assert!(resolve(TURN - 1, &items) < items.len());
    assert!(resolve(i64::MAX, &items) < items.len());
    assert!(resolve(i64::MIN, &items) < items.len());
}

#[test]
fn largest_weights_resolve_without_overflow() {
    let items = items_of(&[u32::MAX, u32::MAX, u32::MAX, u32::MAX]);
    assert_eq!(resolve(QUARTER_TURN, &items), 0);
    assert_eq!(resolve(QUARTER_TURN + 1_570_797, &items), 1);
    assert_eq!(resolve(QUARTER_TURN + TURN - 1, &items), 3);
}

#[test]
fn winner_agrees_with_floating_point_away_from_the_slice_ends() {
    let weights = [3, 1, 2, 5];
    let items = items_of(&weights);
    let mut compared = 0;
    for step in -130..130i64 {
        let rotation = step * 123_457;
        let (expected, margin) = floating_winner(rotation, &weights);
        if margin > 1e-5 {
            assert_eq!(resolve(rotation, &items), expected, "rotation {rotation}");
            compared += 1;
        }
    }
    assert!(compared > 250);
}
