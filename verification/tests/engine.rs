use wheel_picker::spin::{MAX_SPIN_VELOCITY, MIN_SPIN_VELOCITY};
use wheel_picker::{Item, Phase, SpinState, Wheel, WheelData};

fn item(name: &str, weight: u32) -> Item {
    Item { name: name.to_string(), weight }
}

fn wheel_of(items: Vec<Item>) -> Wheel {
    Wheel::from_data(WheelData {
        name: "test".to_string(),
        items,
        removed_items: Vec::new(),
        winner_history: Vec::new(),
        remove_winner: false,
        auto_spin: false,
    })
}

fn abc() -> Wheel {
    wheel_of(vec![item("A", 1), item("B", 1), item("C", 1)])
}

/// Ticks until no spin is under way, and counts the ticks that committed a
/// winner.
fn run_to_completion(wheel: &mut Wheel) -> usize {
    let mut finalized = 0;
    let mut ticks = 0;
    while wheel.is_spinning() {
        if wheel.tick(50_000) {
            finalized += 1;
        }
        ticks += 1;
        assert!(ticks < 10_000);
    }
    finalized
}

#[test]
fn tick_on_an_idle_wheel_does_nothing() {
    let mut wheel = abc();
    assert!(!wheel.tick(16_000));
    assert_eq!(wheel.state.spin, SpinState::new());
    assert_eq!(wheel.items().len(), 3);
    assert!(wheel.winner_history().is_empty());
}

#[test]
fn spin_throws_the_wheel_and_drops_the_edit() {
    let mut wheel = abc();
    wheel.state.editing_idx = Some(1);
    wheel.state.spin.rotation = 123;
    wheel.state.spin.stop_delay = 456;
    wheel.state.spin.has_stopped = true;
    wheel.spin();
    assert!(wheel.is_spinning());
    assert_eq!(wheel.current_rotation(), 0);
    assert_eq!(wheel.state.spin.stop_delay, 0);
    assert!(!wheel.state.spin.has_stopped);
    assert!(MIN_SPIN_VELOCITY <= wheel.state.spin.velocity);
    assert!(wheel.state.spin.velocity < MAX_SPIN_VELOCITY);
    assert_eq!(wheel.state.editing_idx, None);
    assert_eq!(wheel.state.spin.phase(), Phase::Decelerating);
    assert_eq!(wheel.items().len(), 3);
}

#[test]
fn spin_with_uses_the_given_speed() {
    let mut wheel = abc();
    wheel.spin_with(612_345);
    assert_eq!(wheel.state.spin, SpinState::start(612_345));
}

#[test]
fn can_spin_needs_two_items_and_no_spin_under_way() {
    let mut wheel = abc();
    assert!(wheel.can_spin());
    wheel.spin_with(500_000);
    assert!(!wheel.can_spin());
    assert!(!wheel_of(vec![item("A", 1)]).can_spin());
    assert!(!wheel_of(Vec::new()).can_spin());
}

#[test]
fn spin_ends_with_a_winner_from_the_wheel() {
    let mut wheel = abc();
    wheel.spin();
    assert_eq!(run_to_completion(&mut wheel), 1);
    assert!(!wheel.is_spinning());
    assert_eq!(wheel.winner_history().len(), 1);
    assert!(["A", "B", "C"].contains(&wheel.winner_history()[0].as_str()));
    assert_eq!(wheel.items().len(), 3);
    assert!(wheel.removed_items().is_empty());
    assert_eq!(wheel.winner_history()[0], wheel.items()[wheel.get_winner()].name);
}

#[test]
fn removed_winner_moves_to_the_removed_items() {
    let mut wheel = abc();
    wheel.set_remove_winner(true);
    wheel.spin();
    assert_eq!(run_to_completion(&mut wheel), 1);
    assert!(!wheel.is_spinning());
    assert_eq!(wheel.items().len(), 2);
    assert_eq!(wheel.removed_items().len(), 1);
    assert_eq!(wheel.removed_items()[0].name, wheel.winner_history()[0]);
    assert!(wheel.items().iter().all(|item| item.name != wheel.winner_history()[0]));
    assert_eq!(wheel.state.pct_bufs.len(), 2);
}

#[test]
fn auto_spin_goes_on_until_one_item_is_left() {
    let mut wheel = abc();
    wheel.set_remove_winner(true);
    wheel.set_auto_spin(true);
    wheel.spin();
    assert_eq!(run_to_completion(&mut wheel), 2);
    assert_eq!(wheel.items().len(), 1);
    assert_eq!(wheel.winner_history().len(), 2);
    assert_eq!(wheel.removed_items().len(), 2);
    assert_eq!(wheel.removed_items()[0].name, wheel.winner_history()[1]);
    assert_eq!(wheel.removed_items()[1].name, wheel.winner_history()[0]);
}

#[test]
fn auto_spin_without_removal_spins_once() {
    let mut wheel = abc();
    wheel.set_auto_spin(true);
    wheel.spin();
    assert_eq!(run_to_completion(&mut wheel), 1);
    assert_eq!(wheel.items().len(), 3);
    assert_eq!(wheel.winner_history().len(), 1);
}

#[test]
fn tick_reports_the_finalizing_tick_only() {
    let mut wheel = abc();
    wheel.spin_with(500_000);
    let mut ticks = 0;
    while wheel.state.spin.phase() == Phase::Decelerating {
        assert!(!wheel.tick(50_000));
        ticks += 1;
        assert!(ticks < 300);
    }
    let rotation = wheel.current_rotation();
    let expected = wheel.get_winner();
    assert!(!wheel.tick(500_000));
    assert!(!wheel.tick(499_999));
    assert!(wheel.winner_history().is_empty());
    assert!(wheel.tick(1));
    assert!(!wheel.is_spinning());
    assert_eq!(wheel.current_rotation(), rotation);
    assert_eq!(wheel.winner_history(), &vec![wheel.items()[expected].name.clone()]);
    assert!(!wheel.tick(1_000_000));
    assert_eq!(wheel.winner_history().len(), 1);
}

#[test]
fn settled_wheel_picks_the_item_under_the_pointer() {
    // The pointer is at the start of the wheel after a quarter turn, and a
    // third of a turn is 2_094_395 micro-radians.
    for (rotation, winner) in [(1_570_796, "A"), (1_570_796 + 2_094_396, "B"), (0, "C")] {
        let mut wheel = abc();
        wheel.state.spin = SpinState {
            rotation,
            velocity: 0,
            is_spinning: true,
            has_stopped: true,
            stop_delay: 0,
        };
        assert!(wheel.tick(1_000_000));
        assert_eq!(wheel.winner_history(), &vec![winner.to_string()]);
    }
}

#[test]
fn wheel_turned_backwards_has_a_winner_too() {
    // A quarter turn backwards puts the pointer half a turn on: on the edge
    // between two equal items, which belongs to the second.
    let mut wheel = wheel_of(vec![item("A", 1), item("B", 1)]);
    wheel.state.spin.rotation = -1_570_796;
    assert_eq!(wheel.get_winner(), 1);
    wheel.state.spin.rotation = -1_570_797;
    assert_eq!(wheel.get_winner(), 0);
    wheel.state.spin.rotation = i64::MIN;
    assert!(wheel.get_winner() < 2);
}

#[test]
fn latest_winner_comes_first() {
    let mut wheel = abc();
    wheel.data.winner_history = vec!["earlier".to_string(), "earliest".to_string()];
    wheel.state.spin = SpinState {
        rotation: 1_570_796,
        velocity: 0,
        is_spinning: true,
        has_stopped: true,
        stop_delay: 999_000,
    };
    assert!(wheel.tick(1_000));
    assert_eq!(
        wheel.winner_history(),
        &vec!["A".to_string(), "earlier".to_string(), "earliest".to_string()]
    );
}

#[test]
fn tick_with_throws_again_at_the_given_speed() {
    let mut wheel = abc();
    wheel.set_remove_winner(true);
    wheel.set_auto_spin(true);
    wheel.state.editing_idx = Some(2);
    wheel.state.spin = SpinState {
        rotation: 1_570_796,
        velocity: 0,
        is_spinning: true,
        has_stopped: true,
        stop_delay: 0,
    };
    assert!(wheel.tick_with(1_000_000, 555_555));
    assert_eq!(wheel.items(), &vec![item("B", 1), item("C", 1)]);
    assert_eq!(wheel.removed_items(), &vec![item("A", 1)]);
    assert_eq!(wheel.state.spin, SpinState::start(555_555));
    assert_eq!(wheel.state.editing_idx, None);
}

#[test]
fn tick_with_does_not_throw_again_when_one_item_is_left() {
    let mut wheel = wheel_of(vec![item("A", 1), item("B", 1)]);
    wheel.set_remove_winner(true);
    wheel.set_auto_spin(true);
    wheel.state.editing_idx = Some(0);
    wheel.state.spin = SpinState {
        rotation: 0,
        velocity: 0,
        is_spinning: true,
        has_stopped: true,
        stop_delay: 0,
    };
    assert!(wheel.tick_with(1_000_000, 555_555));
    assert_eq!(wheel.items(), &vec![item("A", 1)]);
    assert_eq!(wheel.removed_items(), &vec![item("B", 1)]);
    assert!(!wheel.is_spinning());
    assert_eq!(wheel.current_rotation(), 0);
    assert_eq!(wheel.state.editing_idx, Some(0));
}

#[test]
fn settling_an_empty_wheel_commits_nothing() {
    let mut wheel = wheel_of(Vec::new());
    wheel.state.spin = SpinState {
        rotation: 5,
        velocity: 0,
        is_spinning: true,
        has_stopped: true,
        stop_delay: 0,
    };
    assert!(!wheel.tick(1_000_000));
    assert!(!wheel.is_spinning());
    assert!(wheel.winner_history().is_empty());
    assert_eq!(wheel.get_winner(), 0);
}

#[test]
fn wins_follow_the_weights() {
    let mut wheel = wheel_of(vec![item("heavy", 3), item("light", 1)]);
    let mut heavy = 0;
    let spins = 400;
    for _ in 0..spins {
        wheel.spin();
        run_to_completion(&mut wheel);
        if wheel.winner_history()[0] == "heavy" {
            heavy += 1;
        }
    }
    assert_eq!(wheel.winner_history().len(), spins);
    // the heavy item holds three quarters of the wheel and wins about as often
    assert!(heavy > 240 && heavy < 372, "heavy won {heavy} of {spins}");
}
