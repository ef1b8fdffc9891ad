use dro::color::Color;
use dro::consts::{light_blue, MAXKEYS};
use dro::display::CLEAR_CODE;
use dro::render::DrawOp;
use dro::ui::Ids;
use dro::view::{Axis, Button, Buttons, KeyState, Redraw, View, KEYPAD_KEYS, NO_AXIS_CODE};

fn filled() -> View {
    let mut v = View::new();
    v.fill();
    v
}

#[test]
fn locate_finds_each_region_at_its_centre_and_edges() {
    let v = filled();
    assert_eq!(v.buttons.len(), KEYPAD_KEYS);
    assert_eq!(KEYPAD_KEYS, 21);
    assert_eq!(v.button_id_from_coords(257 + 25, 167 + 24), Some(Ids::Key(1)));
    assert_eq!(v.button_id_from_coords(257 + 57 + 25, 57), Some(Ids::Key(8)));
    assert_eq!(v.button_id_from_coords(257, 222), Some(Ids::Key(0)));
    assert_eq!(v.button_id_from_coords(308, 271), Some(Ids::Key(0)));
    assert_eq!(v.button_id_from_coords(430, 200), Some(Ids::Enter));
    assert_eq!(v.button_id_from_coords(430, 120), Some(Ids::Clear));
    assert_eq!(v.button_id_from_coords(430, 60), Some(Ids::Half));
    assert_eq!(v.button_id_from_coords(320, 230), Some(Ids::DecimalPoint));
    assert_eq!(v.button_id_from_coords(380, 230), Some(Ids::PlusMinus));
    assert_eq!(v.button_id_from_coords(210, 20), Some(Ids::X0Button));
    assert_eq!(v.button_id_from_coords(210, 90), Some(Ids::Y0Button));
    assert_eq!(v.button_id_from_coords(210, 150), Some(Ids::Z0Button));
    assert_eq!(v.button_id_from_coords(260, 10), Some(Ids::XButton));
    assert_eq!(v.button_id_from_coords(320, 10), Some(Ids::YButton));
    assert_eq!(v.button_id_from_coords(380, 10), Some(Ids::ZButton));
}

#[test]
fn locate_outside_every_region_finds_nothing() {
    let v = filled();
    assert_eq!(v.button_id_from_coords(0, 0), None);
    assert_eq!(v.button_id_from_coords(100, 100), None);
    assert_eq!(v.button_id_from_coords(309, 190), None);
    assert_eq!(v.button_id_from_coords(470, 10), None);
    assert_eq!(View::new().button_id_from_coords(260, 10), None);
}

#[test]
fn first_placed_region_wins() {
    let mut t = Buttons::new();
    t.add(Button::new(10, 10, 20, 20, Some("A"), Ids::Enter));
    t.add(Button::new(10, 10, 20, 20, Some("B"), Ids::Clear));
    assert_eq!(t.locate(15, 15), Some(Ids::Enter));
    assert_eq!(t.locate(30, 30), Some(Ids::Enter));
    assert_eq!(t.locate(31, 30), None);
}

#[test]
fn table_takes_up_to_its_capacity() {
    let mut t = Buttons::new();
    for i in 0..MAXKEYS {
        t.add(Button::new(i as u16 * 16, 0, 16, 10, None, Ids::Key(i as u8)));
    }
    assert_eq!(t.len(), MAXKEYS);
    assert_eq!(t.locate(16 * 29 + 8, 5), Some(Ids::Key(29)));
}

#[test]
fn button_label_is_centred_for_the_keypad_font() {
    let b = Button::new(257, 167, 51, 49, Some("1"), Ids::Key(1));
    assert_eq!(b.text_x, 257 + 18);
    assert_eq!(b.text_y, 167 + 36);
    assert!(!b.active);
    let ops = filled().buttons.draw();
    assert_eq!(ops[1], DrawOp::Label { x: 257 + 18, y: 167 + 36, text: "1", color: Color::new(0, 0, 0) });
}

#[test]
fn redraw_requests_paint_one_widget() {
    let mut v = filled();
    v.process_button(Some(Ids::Enter));
    let ops = v.redraw(Redraw::Key(Ids::Enter));
    assert_eq!(
        ops,
        vec![
            DrawOp::Panel { x: 428, y: 167, width: 51, height: 104, fill: Color::new(0, 0, 0) },
            DrawOp::Label { x: 428 + 18, y: 167 + 63, text: ">", color: Color::new(31, 63, 31) },
        ]
    );
    assert_eq!(v.redraw(Redraw::Axis(Axis::Y)), v.y.draw());
    assert!(v.redraw(Redraw::Axis(Axis::Unset)).is_empty());
    assert!(v.redraw(Redraw::Key(Ids::Empty)).is_empty());
}

#[test]
fn pressed_button_draws_in_push_colours() {
    let mut b = Button::new(0, 0, 51, 49, Some("X"), Ids::XButton);
    b.change_colors(light_blue(), Color::new(0, 0, 0));
    let idle = b.draw();
    assert_eq!(idle[0], DrawOp::Panel { x: 0, y: 0, width: 51, height: 49, fill: light_blue() });
    b.activate();
    let pushed = b.draw();
    assert_eq!(pushed[0], DrawOp::Panel { x: 0, y: 0, width: 51, height: 49, fill: Color::new(0, 0, 0) });
    assert_eq!(
        pushed[1],
        DrawOp::Label { x: 18, y: 36, text: "X", color: Color::new(31, 63, 31) }
    );
    b.deactivate();
    assert_eq!(b.draw(), idle);
    b.change_text_position(3, 4);
    assert_eq!(b.text_x, 3);
    assert_eq!(b.get_id(), Ids::XButton);
    assert!(b.inside(51, 49));
    assert!(!b.inside(52, 49));
}

#[test]
fn select_axis_starts_entry() {
    let mut v = filled();
    let step = v.process_button(Some(Ids::XButton));
    assert_eq!(v.key_state, KeyState::NumberEntry(Axis::X));
    assert!(v.x.highlight);
    assert_eq!(v.x.value, 0);
    assert_eq!(v.x.backup_value, -900_000);
    assert_eq!(step.redraws, vec![Redraw::Key(Ids::XButton), Redraw::Axis(Axis::X)]);
    assert_eq!(step.entry, None);
}

#[test]
fn held_touch_acts_once() {
    let mut v = filled();
    let first = v.process_button(Some(Ids::Half));
    assert_eq!(v.key_state, KeyState::Half);
    assert_eq!(first.redraws, vec![Redraw::Key(Ids::Half)]);
    let second = v.process_button(Some(Ids::Half));
    assert!(second.redraws.is_empty());
    assert_eq!(second.entry, None);
    assert_eq!(v.key_state, KeyState::Half);
    assert_eq!(v.active_id, Some(Ids::Half));
}

#[test]
fn sign_change_of_an_axis_draws_it_once() {
    let mut v = filled();
    v.x.set_value(-12_500);
    v.process_button(Some(Ids::PlusMinus));
    assert_eq!(v.key_state, KeyState::PlusMinus);
    let lift = v.process_button(None);
    assert_eq!(lift.redraws, vec![Redraw::Key(Ids::PlusMinus)]);
    assert_eq!(v.key_state, KeyState::PlusMinus);
    let step = v.process_button(Some(Ids::XButton));
    assert_eq!(v.x.value, 12_500);
    assert_eq!(v.key_state, KeyState::Waiting);
    let axis_redraws = step.redraws.iter().filter(|r| **r == Redraw::Axis(Axis::X)).count();
    assert_eq!(axis_redraws, 1);
    v.process_button(Some(Ids::Half));
    v.process_button(Some(Ids::XButton));
    assert_eq!(v.x.value, 6_250);
}

#[test]
fn modifier_followed_by_other_key_is_dropped() {
    let mut v = filled();
    v.process_button(Some(Ids::PlusMinus));
    let step = v.process_button(Some(Ids::Key(3)));
    assert_eq!(v.key_state, KeyState::Waiting);
    assert_eq!(v.x.value, -900_000);
    assert_eq!(step.redraws, vec![Redraw::Key(Ids::Key(3)), Redraw::Key(Ids::PlusMinus)]);
}

#[test]
fn zeroing_keys_set_presets() {
    let mut v = filled();
    v.process_button(Some(Ids::X0Button));
    v.process_button(Some(Ids::Y0Button));
    let step = v.process_button(Some(Ids::Z0Button));
    assert_eq!(v.x.value, 10_000);
    assert_eq!(v.y.value, 0);
    assert_eq!(v.z.value, -10_000);
    assert_eq!(
        step.redraws,
        vec![Redraw::Key(Ids::Z0Button), Redraw::Key(Ids::Y0Button), Redraw::Axis(Axis::Z)]
    );
    assert_eq!(v.key_state, KeyState::Waiting);
}

#[test]
fn full_entry_through_the_dispatcher() {
    let mut v = filled();
    let keys = [
        Some(Ids::YButton),
        None,
        Some(Ids::Key(4)),
        None,
        Some(Ids::DecimalPoint),
        None,
        Some(Ids::Key(2)),
        None,
    ];
    for k in keys {
        assert_eq!(v.process_button(k).entry, None);
    }
    assert_eq!(v.key_state, KeyState::NumberEntry(Axis::Y));
    let step = v.process_button(Some(Ids::Enter));
    assert_eq!(step.entry, Some(Ok(4_200)));
    assert_eq!(v.key_state, KeyState::Waiting);
    assert_eq!(v.y.value, 4_200);
    assert!(!v.y.highlight);
}

#[test]
fn clear_through_the_dispatcher() {
    let mut v = filled();
    v.process_button(Some(Ids::ZButton));
    v.process_button(Some(Ids::Key(7)));
    let step = v.process_button(Some(Ids::Clear));
    assert_eq!(step.entry, Some(Err(CLEAR_CODE)));
    assert_eq!(v.z.value, 20_145);
    assert_eq!(v.key_state, KeyState::Waiting);
}

#[test]
fn entry_into_no_axis_gives_up() {
    let mut v = filled();
    v.key_state = KeyState::NumberEntry(Axis::Unset);
    let step = v.process_button(Some(Ids::Key(1)));
    assert_eq!(step.entry, Some(Err(NO_AXIS_CODE)));
    assert_eq!(NO_AXIS_CODE, 0xFD);
    assert_eq!(v.key_state, KeyState::Waiting);
}

#[test]
fn press_and_release_mark_buttons() {
    let mut v = filled();
    v.process_button(Some(Ids::Key(5)));
    let ops = v.buttons.draw();
    // Key 5 is the fifth button placed; each button paints a panel and a label.
    assert_eq!(ops[8], DrawOp::Panel { x: 314, y: 112, width: 51, height: 49, fill: Color::new(0, 0, 0) });
    v.process_button(None);
    let ops = v.buttons.draw();
    assert_eq!(ops[8], DrawOp::Panel { x: 314, y: 112, width: 51, height: 49, fill: Color::new(31, 63, 31) });
    v.activate_button_from_id(Some(Ids::Clear));
    v.deactivate_button_from_id(Some(Ids::Clear));
    assert_eq!(v.buttons.draw(), ops);
}

#[test]
fn new_screen_shows_initial_values() {
    let v = View::new();
    assert_eq!(
        (v.x.value, v.x.backup_value, v.x.decimal_digits, v.x.highlight),
        (-900_000, 0, None, false)
    );
    assert_eq!(v.y.value, 100_000);
    assert_eq!(v.z.value, 20_145);
    assert_eq!(v.key_state, KeyState::Waiting);
    assert_eq!(v.active_id, None);
    let ops = v.update();
    assert_eq!(ops[0], DrawOp::Block { x0: 0, y0: 0, x1: 480, y1: 272, packed: 10 | 10 << 5 | 10 << 11 });
    // X: panel, minus, six digits, point; Y: panel, six digits, point;
    // Z (020.145): panel, five digits, point.
    assert_eq!(ops.len(), 1 + 9 + 8 + 7);
}
