use wheel_picker::text::{decimal_text, trim};
use wheel_picker::{Item, Probability, Wheel, WheelData};

fn wheel_of(weights: &[u32]) -> Wheel {
    Wheel::from_data(WheelData {
        name: "test".to_string(),
        items: weights
            .iter()
            .map(|weight| Item { name: format!("item {weight}"), weight: *weight })
            .collect(),
        removed_items: Vec::new(),
        winner_history: Vec::new(),
        remove_winner: false,
        auto_spin: false,
    })
}

#[test]
fn trim_takes_white_space_off_both_ends() {
    assert_eq!(trim("  a b  "), "a b");
    assert_eq!(trim("\t\r\nx\u{2003}"), "x");
    assert_eq!(trim("x"), "x");
    assert_eq!(trim(""), "");
    assert_eq!(trim(" \u{a0}\u{3000} "), "");
    assert_eq!(trim("\u{200b}x"), "\u{200b}x");
    for text in ["", " ", " a", "a ", " a b ", "\u{85}é\u{1680}", "  \u{feff} "] {
        assert_eq!(trim(text), text.trim());
    }
}

/// Whether `c` has Unicode's `White_Space` property.
fn in_the_white_space_list(c: char) -> bool {
    matches!(
        c as u32,
        0x0009..=0x000D
            | 0x0020
            | 0x0085
            | 0x00A0
            | 0x1680
            | 0x2000..=0x200A
            | 0x2028
            | 0x2029
            | 0x202F
            | 0x205F
            | 0x3000
    )
}

#[test]
fn trim_takes_just_the_white_space_characters() {
    let mut white = 0;
    for code in 0..=0x10FFFFu32 {
        if let Some(c) = char::from_u32(code) {
            let text = format!("{c}x{c}");
            let expected = if in_the_white_space_list(c) { "x".to_string() } else { text.clone() };
            assert_eq!(trim(&text), expected, "code point {code:#x}");
            if in_the_white_space_list(c) {
                white += 1;
            }
        }
    }
    assert_eq!(white, 25);
}

#[test]
fn numbers_in_decimal() {
    assert_eq!(decimal_text(0), "0");
    assert_eq!(decimal_text(7), "7");
    assert_eq!(decimal_text(10), "10");
    assert_eq!(decimal_text(1_234_567_890), "1234567890");
    assert_eq!(decimal_text(u128::MAX), u128::MAX.to_string());
}

#[test]
fn probability_is_weight_over_total() {
    let wheel = wheel_of(&[1, 2, 5]);
    assert_eq!(wheel.probability(0), Probability { weight: 1, total: 8 });
    assert_eq!(wheel.probability(2), Probability { weight: 5, total: 8 });
    let lone = wheel_of(&[9]);
    assert_eq!(lone.probability(0), Probability { weight: 9, total: 9 });
    let light = wheel_of(&[1, u32::MAX]);
    assert_eq!(light.probability(0), Probability { weight: 1, total: 4_294_967_296 });
}

#[test]
fn percent_rounds_to_the_nearest_halves_upwards() {
    let wheel = wheel_of(&[1, 7]);
    assert_eq!(wheel.rounded_percent(0), 13);
    assert_eq!(wheel.rounded_percent(1), 88);
    let thirds = wheel_of(&[1, 2]);
    assert_eq!(thirds.rounded_percent(0), 33);
    assert_eq!(thirds.rounded_percent(1), 67);
    let lone = wheel_of(&[u32::MAX]);
    assert_eq!(lone.rounded_percent(0), 100);
    let light = wheel_of(&[1, 200]);
    assert_eq!(light.rounded_percent(0), 0);
    assert_eq!(light.rounded_percent(1), 100);
}

#[test]
fn empty_buffers_are_filled_with_the_percentages() {
    let mut wheel = wheel_of(&[1, 1, 2]);
    wheel.state.pct_bufs[1] = "7".to_string();
    wheel.fill_pct_bufs();
    assert_eq!(wheel.state.pct_bufs, vec!["25".to_string(), "7".to_string(), "50".to_string()]);
    wheel.fill_pct_bufs();
    assert_eq!(wheel.state.pct_bufs, vec!["25".to_string(), "7".to_string(), "50".to_string()]);
}

#[test]
fn rewritten_buffer_holds_the_percentage() {
    let mut wheel = wheel_of(&[1, 1, 2]);
    wheel.state.pct_bufs[1] = "7".to_string();
    wheel.rewrite_pct_buf(1);
    assert_eq!(wheel.state.pct_bufs, vec![String::new(), "25".to_string(), String::new()]);
}
