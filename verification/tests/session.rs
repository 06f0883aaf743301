use wheel_picker::session::label_wheel;
use wheel_picker::{Item, SaveData, SpinState, Wheel, WheelApp, WheelData};

fn item(name: &str, weight: u32) -> Item {
    Item { name: name.to_string(), weight }
}

fn data(name: &str, items: Vec<Item>) -> WheelData {
    WheelData {
        name: name.to_string(),
        items,
        removed_items: vec![item("gone", 2)],
        winner_history: vec!["won".to_string()],
        remove_winner: true,
        auto_spin: false,
    }
}

fn three_wheels(current: usize) -> SaveData {
    SaveData {
        wheels: vec![
            data("one", vec![item("a", 1)]),
            data("two", vec![item("b", 2), item("c", 3)]),
            data("three", Vec::new()),
        ],
        current,
    }
}

#[test]
fn wheels_are_named_by_their_place() {
    assert_eq!(label_wheel(1), "Wheel 1");
    assert_eq!(label_wheel(10), "Wheel 10");
    assert_eq!(label_wheel(205), "Wheel 205");
}

#[test]
fn load_without_a_save_starts_with_one_wheel() {
    let app = WheelApp::load(None);
    assert_eq!(app.wheel_count(), 1);
    assert_eq!(app.current, 0);
    assert!(!app.show_history && !app.show_removed && !app.needs_save);
    let fresh = Wheel::new("Wheel 1".to_string());
    assert_eq!(app.current_wheel().data, fresh.data);
    assert_eq!(app.current_wheel().state.spin, SpinState::new());
    assert_eq!(app.current_wheel().state.pct_bufs, vec![String::new(); 6]);
}

#[test]
fn load_takes_the_saved_wheels() {
    let app = WheelApp::load(Some(three_wheels(1)));
    assert_eq!(app.wheel_count(), 3);
    assert_eq!(app.current, 1);
    assert!(app.has_current());
    assert_eq!(app.current_wheel().data, data("two", vec![item("b", 2), item("c", 3)]));
    for (wheel, saved) in app.wheels.iter().zip(three_wheels(1).wheels) {
        assert_eq!(wheel.data, saved);
        assert_eq!(wheel.state.spin, SpinState::new());
        assert_eq!(wheel.state.editing_idx, None);
        assert_eq!(wheel.state.pct_bufs, vec![String::new(); wheel.items().len()]);
    }
    assert!(!app.show_history && !app.show_removed && !app.needs_save);
}

#[test]
fn load_raises_saved_weights_under_one() {
    let mut saved = three_wheels(0);
    saved.wheels[1].items[0].weight = 0;
    saved.wheels[1].removed_items[0].weight = 0;
    let app = WheelApp::load(Some(saved));
    assert_eq!(app.wheels[1].items(), &vec![item("b", 1), item("c", 3)]);
    assert_eq!(app.wheels[1].removed_items(), &vec![item("gone", 1)]);
    assert_eq!(app.wheels[0].data, three_wheels(0).wheels[0]);
    assert_eq!(app.wheels[2].data, three_wheels(0).wheels[2]);
    for wheel in app.wheels.iter() {
        assert!(wheel.items().iter().all(|item| item.weight >= 1));
        assert!(wheel.removed_items().iter().all(|item| item.weight >= 1));
    }
    assert!(app.is_sound());
}

#[test]
fn load_shows_the_last_wheel_where_the_saved_index_is_too_large() {
    assert_eq!(WheelApp::load(Some(three_wheels(2))).current, 2);
    assert_eq!(WheelApp::load(Some(three_wheels(3))).current, 2);
    assert_eq!(WheelApp::load(Some(three_wheels(usize::MAX))).current, 2);
}

#[test]
fn load_of_a_save_without_wheels_has_no_wheel_to_show() {
    let app = WheelApp::load(Some(SaveData { wheels: Vec::new(), current: 4 }));
    assert_eq!(app.wheel_count(), 0);
    assert_eq!(app.current, 0);
    assert!(!app.has_current());
}

#[test]
fn save_data_copies_every_wheel() {
    let mut app = WheelApp::load(Some(three_wheels(1)));
    app.wheels[1].state.pct_bufs[0] = "50".to_string();
    app.wheels[1].spin_with(600_000);
    assert_eq!(app.save_data(), three_wheels(1));
    app.select_wheel(2);
    assert_eq!(app.save_data(), three_wheels(2));
}

#[test]
fn new_wheel_is_added_at_the_end_and_shown() {
    let mut app = WheelApp::load(None);
    app.new_wheel();
    assert_eq!(app.wheel_count(), 2);
    assert_eq!(app.current, 1);
    assert!(app.needs_save);
    assert_eq!(app.wheels[0].data.name, "Wheel 1");
    assert_eq!(app.current_wheel().data, Wheel::new("Wheel 2".to_string()).data);
    assert_eq!(app.current_wheel().state.editing_idx, None);
    assert_eq!(app.current_wheel().state.pct_bufs, vec![String::new(); 6]);
    app.new_wheel();
    assert_eq!(app.current, 2);
    assert_eq!(app.current_wheel().data.name, "Wheel 3");
}

#[test]
fn select_wheel_shows_another_wheel() {
    let mut app = WheelApp::load(Some(three_wheels(0)));
    app.select_wheel(2);
    assert_eq!(app.current, 2);
    assert_eq!(app.current_wheel().data.name, "three");
    assert!(!app.needs_save);
}

#[test]
fn delete_wheel_removes_the_shown_wheel() {
    let mut app = WheelApp::load(Some(three_wheels(1)));
    assert!(app.delete_wheel());
    assert_eq!(app.wheel_count(), 2);
    assert_eq!(app.current, 1);
    assert_eq!(app.current_wheel().data.name, "three");
    assert!(app.needs_save);
    assert!(app.delete_wheel());
    assert_eq!(app.wheel_count(), 1);
    assert_eq!(app.current, 0);
    assert_eq!(app.current_wheel().data.name, "one");
}

#[test]
fn the_only_wheel_is_not_deleted() {
    let mut app = WheelApp::load(None);
    assert!(!app.delete_wheel());
    assert_eq!(app.wheel_count(), 1);
    assert!(!app.needs_save);
}

#[test]
fn tick_advances_the_shown_wheel_only() {
    let mut app = WheelApp::load(Some(three_wheels(1)));
    app.wheels[0].spin_with(500_000);
    app.wheels[1].spin_with(600_000);
    assert!(!app.tick(16_000));
    assert_eq!(app.wheels[0].state.spin, SpinState::start(500_000));
    assert_eq!(app.wheels[1].current_rotation(), 600_000);
    assert!(!app.needs_save);
}

#[test]
fn a_committed_winner_is_something_to_save() {
    let mut app = WheelApp::load(Some(three_wheels(1)));
    app.wheels[1].state.spin = SpinState {
        rotation: 1_570_796,
        velocity: 0,
        is_spinning: true,
        has_stopped: true,
        stop_delay: 0,
    };
    assert!(app.tick(1_000_000));
    assert!(app.needs_save);
    assert_eq!(app.current_wheel().winner_history(), &vec!["b".to_string(), "won".to_string()]);
    assert_eq!(app.current_wheel().items(), &vec![item("c", 3)]);
    assert_eq!(app.current_wheel().removed_items(), &vec![item("gone", 2), item("b", 2)]);
}

#[test]
fn save_request_is_taken_once() {
    let mut app = WheelApp::load(None);
    assert!(!app.take_save_request(false));
    assert!(app.take_save_request(true));
    assert!(!app.needs_save);
    app.new_wheel();
    assert!(app.take_save_request(false));
    assert!(!app.take_save_request(false));
}
