use dro::display::{SevenSegDisplay, ABORT_CODE, CLEAR_CODE, VALUE_LIMIT};
use dro::render::DrawOp;
use dro::ui::Ids;

fn field() -> SevenSegDisplay {
    SevenSegDisplay::new(1, 15, 194, 56)
}

fn text(d: &SevenSegDisplay) -> String {
    d.text.iter().collect()
}

fn type_keys(d: &mut SevenSegDisplay, keys: &[Ids]) {
    for k in keys {
        assert_eq!(d.input(*k), None);
    }
}

#[test]
fn typed_digits_commit_on_enter() {
    let mut d = field();
    d.start();
    type_keys(
        &mut d,
        &[Ids::Key(1), Ids::Key(2), Ids::Key(3), Ids::DecimalPoint, Ids::Key(4), Ids::Key(5)],
    );
    assert_eq!(d.input(Ids::Enter), Some(Ok(123_450)));
    assert_eq!(d.get_value(), 123_450);
    assert!(!d.highlight);
    assert_eq!(text(&d), "123450");
}

#[test]
fn leading_zeros_are_kept_in_value_and_blank_on_screen() {
    let mut d = field();
    d.start();
    type_keys(&mut d, &[Ids::Key(0), Ids::Key(0), Ids::Key(5)]);
    assert_eq!(d.value, 5_000);
    assert_eq!(text(&d), "005000");
    let ops = d.draw();
    let digits: Vec<char> = ops
        .iter()
        .filter_map(|op| match op {
            DrawOp::Digit { ch, .. } => Some(*ch),
            _ => None,
        })
        .collect();
    assert_eq!(digits, vec!['5', '0', '0', '0']);
}

#[test]
fn fourth_decimal_is_ignored() {
    let mut d = field();
    d.start();
    type_keys(
        &mut d,
        &[Ids::Key(1), Ids::DecimalPoint, Ids::Key(2), Ids::Key(3), Ids::Key(4), Ids::Key(5)],
    );
    assert_eq!(d.value, 1_234);
    assert_eq!(d.decimal_digits, Some(3));
    assert_eq!(d.input(Ids::Enter), Some(Ok(1_234)));
}

#[test]
fn clear_restores_value_from_before_start() {
    let mut d = field();
    d.set_value(42_000);
    d.start();
    assert_eq!(d.value, 0);
    assert!(d.highlight);
    type_keys(&mut d, &[Ids::Key(9), Ids::Key(9)]);
    assert_eq!(d.value, 99_000);
    assert_eq!(d.input(Ids::Clear), Some(Err(CLEAR_CODE)));
    assert_eq!(d.value, 42_000);
    assert_eq!(text(&d), "042000");
    assert!(!d.highlight);
}

#[test]
fn unrelated_key_aborts_entry() {
    let mut d = field();
    d.set_value(-7_250);
    d.start();
    type_keys(&mut d, &[Ids::Key(3)]);
    assert_eq!(d.input(Ids::XButton), Some(Err(ABORT_CODE)));
    assert_eq!(ABORT_CODE, 0xFE);
    assert_eq!(CLEAR_CODE, 0xFF);
    assert_eq!(d.value, -7_250);
    assert!(d.negative);
}

#[test]
fn second_decimal_point_changes_nothing() {
    let mut d = field();
    d.start();
    type_keys(&mut d, &[Ids::Key(2), Ids::DecimalPoint, Ids::Key(5), Ids::DecimalPoint, Ids::Key(1)]);
    assert_eq!(d.value, 2_510);
}

#[test]
fn sign_and_half_during_entry() {
    let mut d = field();
    d.start();
    type_keys(&mut d, &[Ids::Key(5), Ids::PlusMinus]);
    assert_eq!(d.value, -5_000);
    assert!(d.negative);
    type_keys(&mut d, &[Ids::Half]);
    assert_eq!(d.value, -2_500);
    assert!(d.highlight);
    assert_eq!(d.input(Ids::Enter), Some(Ok(-2_500)));
}

#[test]
fn plus_minus_then_half_outside_entry() {
    let mut d = field();
    d.set_value(-12_500);
    d.plus_minus();
    assert_eq!(d.get_value(), 12_500);
    assert!(!d.negative);
    d.half();
    assert_eq!(d.get_value(), 6_250);
    assert_eq!(text(&d), "006250");
}

#[test]
fn half_rounds_toward_zero() {
    let mut d = field();
    d.set_value(-1);
    d.half();
    assert_eq!(d.value, 0);
    d.set_value(3);
    d.half();
    assert_eq!(d.value, 1);
}

#[test]
fn buffer_shows_three_integer_digits_and_three_decimals() {
    let mut d = field();
    d.set_value(123_456);
    assert_eq!(text(&d), "123456");
    assert!(!d.negative);
    d.set_value(-5);
    assert_eq!(text(&d), "000005");
    assert!(d.negative);
    d.set_value(999_999);
    assert_eq!(text(&d), "999999");
    d.set_value(0);
    assert_eq!(text(&d), "000000");
}

#[test]
fn buffer_saturates_from_one_thousand() {
    let mut d = field();
    d.set_value(1_000_000);
    assert_eq!(text(&d), "999999");
    d.set_value(-2_000_000);
    assert_eq!(text(&d), "999999");
    assert!(d.negative);
    assert_eq!(d.value, -2_000_000);
}

#[test]
fn integer_part_keeps_growing_past_display() {
    let mut d = field();
    d.start();
    type_keys(&mut d, &[Ids::Key(1), Ids::Key(2), Ids::Key(3), Ids::Key(4)]);
    assert_eq!(d.value, 1_234_000);
    assert_eq!(text(&d), "999999");
}

#[test]
fn minus_sign_follows_digit_count() {
    let mut d = field();
    let minus_x = |d: &SevenSegDisplay| match d.draw()[1] {
        DrawOp::Block { x0, .. } => x0,
        _ => panic!("no minus sign"),
    };
    d.set_value(-500);
    assert_eq!(text(&d), "000500");
    assert_eq!(minus_x(&d), 8 + 2 * 27);
    d.set_value(-1);
    assert_eq!(minus_x(&d), 8 + 2 * 27);
    d.set_value(-5_000);
    assert_eq!(minus_x(&d), 8 + 2 * 27);
    d.set_value(-50_000);
    assert_eq!(minus_x(&d), 8 + 27);
    d.set_value(-500_000);
    assert_eq!(minus_x(&d), 8);
    d.set_value(-5_000_000);
    assert_eq!(minus_x(&d), 8);
    d.set_value(5_000);
    assert!(matches!(d.draw()[1], DrawOp::Digit { .. }));
}

#[test]
fn frame_of_positive_value() {
    let mut d = field();
    d.set_value(20_145);
    let ops = d.draw();
    assert_eq!(ops.len(), 1 + 5 + 1);
    assert_eq!(
        ops[0],
        DrawOp::Panel { x: 1, y: 15, width: 194, height: 56, fill: d.fill_color }
    );
    assert_eq!(ops[1], DrawOp::Digit { x: 8 + 27 + 16, y: 30, ch: '2', color: d.text_clr });
    assert_eq!(ops[2], DrawOp::Digit { x: 8 + 54 + 16, y: 30, ch: '0', color: d.text_clr });
    assert_eq!(
        ops[3],
        DrawOp::Block { x0: 8 + 97, y0: 59, x1: 8 + 101, y1: 63, packed: d.text_clr.packed() }
    );
    assert_eq!(ops[4], DrawOp::Digit { x: 8 + 81 + 24, y: 30, ch: '1', color: d.text_clr });
    assert_eq!(ops[6], DrawOp::Digit { x: 8 + 135 + 24, y: 30, ch: '5', color: d.text_clr });
}

#[test]
fn highlighted_field_draws_in_highlight_colour() {
    let mut d = field();
    d.start();
    assert_eq!(d.text_color(), d.highlight_text_color);
    d.clear_highlight_text();
    assert_eq!(d.text_color(), d.text_clr);
    d.set_highlight_text();
    assert!(d.highlight);
}

#[test]
fn buffer_saturates_at_the_ends_of_the_range() {
    let mut d = field();
    d.set_value(i64::MAX);
    assert_eq!(text(&d), "999999");
    assert!(!d.negative);
    assert_eq!(d.value, i64::MAX);
    d.set_value(-i64::MAX);
    assert_eq!(text(&d), "999999");
    assert!(d.negative);
    assert_eq!(d.value, -i64::MAX);
}

#[test]
fn typing_stops_at_the_largest_value() {
    let mut d = field();
    d.start();
    for _ in 0..25 {
        assert_eq!(d.input(Ids::Key(9)), None);
    }
    assert_eq!(d.value, VALUE_LIMIT);
    assert_eq!(VALUE_LIMIT, i64::MAX);
    assert_eq!(d.input(Ids::PlusMinus), None);
    assert_eq!(d.value, -VALUE_LIMIT);
    type_keys(&mut d, &[Ids::Key(3)]);
    assert_eq!(d.value, -VALUE_LIMIT);
    assert_eq!(text(&d), "999999");
}
