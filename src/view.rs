//! Touch regions drawn as buttons, the table that finds the region under a
//! touch, and the screen that dispatches the actions of the regions.
use vstd::prelude::*;
use vstd::view::View as ViewTrait;

use crate::color::{packed_of, Color};
use crate::consts::{
    background_color, black, light_blue, orange, red, white, BUTTON_HEIGHT, BUTTON_WIDTH,
    DOUBLE_BUTTON_HEIGHT, HEIGHT, KEY_X_OFFSET, KEY_X_SPACING, KEY_Y_OFFSET, KEY_Y_SPACING, MAXKEYS,
    SEVEN_SEG_HEIGHT, SEVEN_SEG_LEFT, SEVEN_SEG_TOP, SEVEN_SEG_VSPACE, SEVEN_SEG_WIDTH, WIDTH,
};
use crate::render::DrawOp;
use crate::display::{
    half_step, input_redraws, input_step, plus_minus_step, start_step, Entry, SevenSegDisplay,
};
use crate::ui::Ids;

verus! {

/// Relies on profont::PROFONT_24_POINT: its glyph cell, read from its
/// `character_size`, is 16 pixels wide and 29 high.
#[verifier::external_body]
fn keypad_glyph_size() -> (r: (u32, u32))
    ensures
        r == (16u32, 29u32),
{
    let size = profont::PROFONT_24_POINT.character_size;
    (size.width, size.height)
}

/// Where a label starts across a button: its glyph centred, one pixel right.
pub open spec fn label_x(x: int, width: int) -> int {
    x + (width - 16) / 2 + 1
}

/// Where a label's baseline falls within a button.
pub open spec fn label_y(y: int, height: int) -> int {
    y + (height + 29) / 2 - 3
}

/// A touch region drawn as a button with a label.
#[derive(Clone, Copy, Debug)]
pub struct Button {
    pub x: u16,
    pub y: u16,
    pub width: u16,
    pub height: u16,
    pub text_x: i32,
    pub text_y: i32,
    pub active: bool,
    pub id: Ids,
    pub fill_color: Color,
    pub text_color: Color,
    pub push_fill: Color,
    pub push_text: Color,
    pub text: Option<&'static str>,
}

/// A fresh button: idle, white with black text, black with white text while pressed.
pub open spec fn placed(
    x: u16,
    y: u16,
    width: u16,
    height: u16,
    text: Option<&'static str>,
    id: Ids,
) -> Button {
    Button {
        x,
        y,
        width,
        height,
        text_x: label_x(x as int, width as int) as i32,
        text_y: label_y(y as int, height as int) as i32,
        active: false,
        id,
        fill_color: white(),
        text_color: black(),
        push_fill: black(),
        push_text: white(),
        text,
    }
}

/// Whether a point lies in a button, edges included.
pub open spec fn contains(b: Button, x: int, y: int) -> bool {
    b.x <= x <= b.x + b.width && b.y <= y <= b.y + b.height
}

/// Whether two buttons share a point.
pub open spec fn overlap(a: Button, b: Button) -> bool {
    a.x <= b.x + b.width && b.x <= a.x + a.width && a.y <= b.y + b.height && b.y <= a.y + a.height
}

/// No two buttons of the table share a point.
pub open spec fn disjoint(s: Seq<Button>) -> bool {
    forall|j: int, k: int| 0 <= j < s.len() && 0 <= k < s.len() && j != k ==> !overlap(s[j], s[k])
}

/// The action of the first button from index `i` on that holds the point.
pub open spec fn hit_from(s: Seq<Button>, i: int, x: int, y: int) -> Option<Ids>
    decreases s.len() - i,
{
    if i < 0 || i >= s.len() {
        None
    } else if contains(s[i], x, y) {
        Some(s[i].id)
    } else {
        hit_from(s, i + 1, x, y)
    }
}

/// The action of the first button, in placement order, that holds the point.
pub open spec fn hit(s: Seq<Button>, x: int, y: int) -> Option<Ids> {
    hit_from(s, 0, x, y)
}

/// The label of a digit key.
pub open spec fn digit_label(n: int) -> &'static str {
    if n == 1 { "1" }
    else if n == 2 { "2" }
    else if n == 3 { "3" }
    else if n == 4 { "4" }
    else if n == 5 { "5" }
    else if n == 6 { "6" }
    else if n == 7 { "7" }
    else if n == 8 { "8" }
    else if n == 9 { "9" }
    else { "" }
}

/// Digit key `n`, 1 to 9: three to a row from the left, 1 to 3 on the lowest of
/// the three rows.
pub open spec fn digit_key(n: int) -> Button {
    let row = (n - 1) / 3;
    let col = (n - 1) % 3;
    placed(
        (KEY_X_OFFSET + col * KEY_X_SPACING) as u16,
        (KEY_Y_OFFSET + (3 - row) * KEY_Y_SPACING) as u16,
        BUTTON_WIDTH,
        BUTTON_HEIGHT,
        Some(digit_label(n)),
        Ids::Key(n as u8),
    )
}

/// A zeroing key beside the readout of row `row`, its label placed by hand.
pub open spec fn zero_key(row: int, text: &'static str, id: Ids) -> Button {
    let x = SEVEN_SEG_WIDTH + 8;
    let y = SEVEN_SEG_TOP + row * SEVEN_SEG_VSPACE + (SEVEN_SEG_HEIGHT - BUTTON_HEIGHT) / 2;
    Button {
        fill_color: light_blue(),
        text_color: black(),
        text_x: (x + BUTTON_WIDTH * 10 / 50) as i32,
        text_y: (SEVEN_SEG_TOP + (SEVEN_SEG_HEIGHT - BUTTON_HEIGHT) / 2 + BUTTON_HEIGHT * 27 / 40
            + row * SEVEN_SEG_VSPACE) as i32,
        ..placed(x as u16, y as u16, (BUTTON_WIDTH - 1) as u16, BUTTON_HEIGHT, Some(text), id)
    }
}

/// An axis key in the top row of the keypad, column `col`.
pub open spec fn axis_key(col: int, text: &'static str, id: Ids) -> Button {
    Button {
        fill_color: light_blue(),
        text_color: black(),
        ..placed(
            (KEY_X_OFFSET + col * KEY_X_SPACING) as u16,
            1,
            BUTTON_WIDTH,
            BUTTON_HEIGHT,
            Some(text),
            id,
        )
    }
}

/// A key of the keypad at column `col` and row `row`, rows counted down from the axis keys.
pub open spec fn pad_key(col: int, row: int, text: &'static str, id: Ids) -> Button {
    placed(
        (KEY_X_OFFSET + col * KEY_X_SPACING) as u16,
        (KEY_Y_OFFSET + row * KEY_Y_SPACING) as u16,
        BUTTON_WIDTH,
        BUTTON_HEIGHT,
        Some(text),
        id,
    )
}

/// The regions of the screen, in placement order: digits 1 to 9, then 0, enter,
/// decimal point, sign, clear, halve, the three zeroing keys and the three axis keys.
pub open spec fn keypad() -> Seq<Button> {
    Seq::new(9, |k: int| digit_key(k + 1)) + seq![
        pad_key(0, 4, "0", Ids::Key(0)),
        Button {
            fill_color: red(),
            text_color: black(),
            ..placed(
                (KEY_X_OFFSET + 3 * KEY_X_SPACING) as u16,
                (KEY_Y_OFFSET + 3 * KEY_Y_SPACING) as u16,
                BUTTON_WIDTH,
                DOUBLE_BUTTON_HEIGHT,
                Some(">"),
                Ids::Enter,
            )
        },
        pad_key(1, 4, ".", Ids::DecimalPoint),
        pad_key(2, 4, "\u{b1}", Ids::PlusMinus),
        pad_key(3, 2, "C", Ids::Clear),
        Button { fill_color: orange(), text_color: black(), ..pad_key(3, 1, "H", Ids::Half) },
        zero_key(0, "X0", Ids::X0Button),
        zero_key(1, "Y0", Ids::Y0Button),
        zero_key(2, "Z0", Ids::Z0Button),
        axis_key(0, "X", Ids::XButton),
        axis_key(1, "Y", Ids::YButton),
        axis_key(2, "Z", Ids::ZButton),
    ]
}

/// The count of regions in the layout.
pub const KEYPAD_KEYS: usize = 21;

impl Button {
    /// What is painted for the button: the panel, then the label, in the pressed
    /// colours while the button is active.
    pub open spec fn frame(&self) -> Seq<DrawOp> {
        let fill = if self.active { self.push_fill } else { self.fill_color };
        let ink = if self.active { self.push_text } else { self.text_color };
        let panel = DrawOp::Panel {
            x: self.x as i32,
            y: self.y as i32,
            width: self.width as i32,
            height: self.height as i32,
            fill,
        };
        match self.text {
            Some(t) => seq![
                panel,
                DrawOp::Label { x: self.text_x, y: self.text_y, text: t, color: ink },
            ],
            None => seq![panel],
        }
    }

    /// A button at (x, y) whose label is centred for the keypad font.
    pub fn new(x: u16, y: u16, width: u16, height: u16, text: Option<&'static str>, id: Ids) -> (b:
        Button)
        requires
            width >= 16,
        ensures
            b == placed(x, y, width, height, text, id),
    {
        let (w, h) = keypad_glyph_size();
        let text_x = x as i32 + ((width as u32 - w) / 2) as i32 + 1;
        let text_y = y as i32 + ((height as u32 + h) / 2) as i32 - 3;
        Button {
            x,
            y,
            width,
            height,
            text_x,
            text_y,
            active: false,
            id,
            fill_color: white(),
            text_color: black(),
            push_fill: black(),
            push_text: white(),
            text,
        }
    }

    /// What to paint for the button; see `frame`.
    pub fn draw(&self) -> (ops: Vec<DrawOp>)
        ensures
            ops@ == self.frame(),
    {
        let fill = if self.active { self.push_fill } else { self.fill_color };
        let ink = if self.active { self.push_text } else { self.text_color };
        let mut ops: Vec<DrawOp> = Vec::new();
        ops.push(DrawOp::Panel {
            x: self.x as i32,
            y: self.y as i32,
            width: self.width as i32,
            height: self.height as i32,
            fill,
        });
        if let Some(t) = self.text {
            ops.push(DrawOp::Label { x: self.text_x, y: self.text_y, text: t, color: ink });
        }
        assert(ops@ =~= self.frame());
        ops
    }

    pub fn change_colors(&mut self, fill: Color, text: Color)
        ensures
            *final(self) == (Button { fill_color: fill, text_color: text, ..*old(self) }),
    {
        self.fill_color = fill;
        self.text_color = text;
    }

    pub fn change_text_position(&mut self, text_x: u16, text_y: u16)
        ensures
            *final(self) == (Button { text_x: text_x as i32, text_y: text_y as i32, ..*old(self) }),
    {
        self.text_x = text_x as i32;
        self.text_y = text_y as i32;
    }

    /// Whether (x, y) falls within the edges of the button.
    pub fn inside(&self, x: u16, y: u16) -> (r: bool)
        ensures
            r == contains(*self, x as int, y as int),
    {
        x >= self.x && x as u32 <= self.x as u32 + self.width as u32 && y >= self.y && y as u32
            <= self.y as u32 + self.height as u32
    }

    pub fn get_id(&self) -> (id: Ids)
        ensures
            id == self.id,
    {
        self.id
    }

    /// Shows the button pressed; it is then drawn again.
    pub fn activate(&mut self)
        ensures
            *final(self) == (Button { active: true, ..*old(self) }),
    {
        self.active = true;
    }

    /// Shows the button idle; it is then drawn again.
    pub fn deactivate(&mut self)
        ensures
            *final(self) == (Button { active: false, ..*old(self) }),
    {
        self.active = false;
    }
}

/// Paints the whole screen in the background colour.
pub fn draw_background() -> (op: DrawOp)
    ensures
        op == (DrawOp::Block {
            x0: 0,
            y0: 0,
            x1: WIDTH as i32,
            y1: HEIGHT as i32,
            packed: packed_of(background_color()) as u32,
        }),
{
    let packed = background_color().packed();
    DrawOp::Block { x0: 0, y0: 0, x1: WIDTH as i32, y1: HEIGHT as i32, packed }
}

/// The table of touch regions, kept in the order they were placed.
pub struct Buttons {
    buttons: Vec<Button>,
}

impl ViewTrait for Buttons {
    type V = Seq<Button>;

    closed spec fn view(&self) -> Seq<Button> {
        self.buttons@
    }
}

/// What is painted for a button if it carries the action, nothing otherwise.
pub open spec fn frame_if(b: Button, id: Ids) -> Seq<DrawOp> {
    if b.id == id { b.frame() } else { seq![] }
}

/// A button shown pressed or idle if it carries the action, otherwise as it was.
pub open spec fn marked(b: Button, id: Ids, active: bool) -> Button {
    if b.id == id { Button { active, ..b } } else { b }
}

/// A button pressed if it carries the touched action, released if it carries the
/// action touched before, otherwise as it was.
pub open spec fn pressed(b: Button, src: Option<Ids>, before: Option<Ids>) -> Button {
    if src == Some(b.id) {
        Button { active: true, ..b }
    } else if before == Some(b.id) {
        Button { active: false, ..b }
    } else {
        b
    }
}

impl Buttons {
    /// The table holds no more than its capacity.
    pub open spec fn wf(&self) -> bool {
        self@.len() <= MAXKEYS
    }

    /// An empty table.
    pub fn new() -> (t: Buttons)
        ensures
            t@ == Seq::<Button>::empty(),
            t.wf(),
    {
        Buttons { buttons: Vec::new() }
    }

    pub fn len(&self) -> (n: usize)
        ensures
            n == self@.len(),
    {
        self.buttons.len()
    }

    /// Places a button after the others. A full table is a layout fault, so the
    /// caller keeps within the capacity.
    pub fn add(&mut self, button: Button)
        requires
            old(self)@.len() < MAXKEYS,
        ensures
            final(self)@ == old(self)@.push(button),
            final(self).wf(),
    {
        self.buttons.push(button);
    }

    /// Places the keypad, the zeroing keys and the axis keys after the regions there are.
    fn make_keys(&mut self)
        requires
            old(self)@.len() + KEYPAD_KEYS <= MAXKEYS,
        ensures
            final(self)@ == old(self)@ + keypad(),
    {
        let mut index: u16 = 1;
        while index <= 9
            invariant
                1 <= index <= 10,
                old(self)@.len() + KEYPAD_KEYS <= MAXKEYS,
                self@ == old(self)@ + Seq::new((index - 1) as nat, |k: int| digit_key(k + 1)),
            decreases 10 - index,
        {
            let row = (index - 1) / 3;
            let col = (index - 1) % 3;
            let a = match index {
                1 => "1",
                2 => "2",
                3 => "3",
                4 => "4",
                5 => "5",
                6 => "6",
                7 => "7",
                8 => "8",
                _ => "9",
            };
            let x = KEY_X_OFFSET + col * KEY_X_SPACING;
            let y = KEY_Y_OFFSET + (3 - row) * KEY_Y_SPACING;
            let b = Button::new(x, y, BUTTON_WIDTH, BUTTON_HEIGHT, Some(a), Ids::Key(index as u8));
            assert(b == digit_key(index as int));
            self.add(b);
            assert(self@ =~= old(self)@ + Seq::new(index as nat, |k: int| digit_key(k + 1)));
            index += 1;
        }
        self.add(Button::new(
            KEY_X_OFFSET,
            KEY_Y_OFFSET + 4 * KEY_Y_SPACING,
            BUTTON_WIDTH,
            BUTTON_HEIGHT,
            Some("0"),
            Ids::Key(0)),
        );
        let mut button = Button::new(
            KEY_X_OFFSET + 3 * KEY_X_SPACING,
            KEY_Y_OFFSET + 3 * KEY_Y_SPACING,
            BUTTON_WIDTH,
            DOUBLE_BUTTON_HEIGHT,
            Some(">"),
            Ids::Enter,
        );
        button.change_colors(red(), black());
        self.add(button);
        self.add(Button::new(
            KEY_X_OFFSET + KEY_X_SPACING,
            KEY_Y_OFFSET + 4 * KEY_Y_SPACING,
            BUTTON_WIDTH,
            BUTTON_HEIGHT,
            Some("."),
            Ids::DecimalPoint),
        );
        self.add(Button::new(
            KEY_X_OFFSET + 2 * KEY_X_SPACING,
            KEY_Y_OFFSET + 4 * KEY_Y_SPACING,
            BUTTON_WIDTH,
            BUTTON_HEIGHT,
            Some("\u{b1}"),
            Ids::PlusMinus),
        );
        self.add(Button::new(
            KEY_X_OFFSET + 3 * KEY_X_SPACING,
            KEY_Y_OFFSET + 2 * KEY_Y_SPACING,
            BUTTON_WIDTH,
            BUTTON_HEIGHT,
            Some("C"),
            Ids::Clear),
        );
        let mut button = Button::new(
            KEY_X_OFFSET + 3 * KEY_X_SPACING,
            KEY_Y_OFFSET + KEY_Y_SPACING,
            BUTTON_WIDTH,
            BUTTON_HEIGHT,
            Some("H"),
            Ids::Half,
        );
        button.change_colors(orange(), black());
        self.add(button);

        let x = SEVEN_SEG_WIDTH + 8;
        let y = SEVEN_SEG_TOP + (SEVEN_SEG_HEIGHT - BUTTON_HEIGHT) / 2;
        let label_x = x + BUTTON_WIDTH * 10 / 50;
        let mut label_y = y + BUTTON_HEIGHT * 27 / 40;
        let mut button = Button::new(
            x,
            y,
            BUTTON_WIDTH - 1,
            BUTTON_HEIGHT,
            Some("X0"),
            Ids::X0Button,
        );
        button.change_colors(light_blue(), black());
        button.change_text_position(label_x, label_y);
        self.add(button);

        label_y = label_y + SEVEN_SEG_VSPACE;
        let mut button = Button::new(
            x,
            y + SEVEN_SEG_VSPACE,
            BUTTON_WIDTH - 1,
            BUTTON_HEIGHT,
            Some("Y0"),
            Ids::Y0Button,
        );
        button.change_colors(light_blue(), black());
        button.change_text_position(label_x, label_y);
        self.add(button);

        label_y = label_y + SEVEN_SEG_VSPACE;
        let mut button = Button::new(
            x,
            y + 2 * SEVEN_SEG_VSPACE,
            BUTTON_WIDTH - 1,
            BUTTON_HEIGHT,
            Some("Z0"),
            Ids::Z0Button,
        );
        button.change_colors(light_blue(), black());
        button.change_text_position(label_x, label_y);
        self.add(button);

        let mut button = Button::new(
            KEY_X_OFFSET,
            1,
            BUTTON_WIDTH,
            BUTTON_HEIGHT,
            Some("X"),
            Ids::XButton,
        );
        button.change_colors(light_blue(), black());
        self.add(button);
        let mut button = Button::new(
            KEY_X_OFFSET + KEY_X_SPACING,
            1,
            BUTTON_WIDTH,
            BUTTON_HEIGHT,
            Some("Y"),
            Ids::YButton,
        );
        button.change_colors(light_blue(), black());
        self.add(button);
        let mut button = Button::new(
            KEY_X_OFFSET + 2 * KEY_X_SPACING,
            1,
            BUTTON_WIDTH,
            BUTTON_HEIGHT,
            Some("Z"),
            Ids::ZButton,
        );
        button.change_colors(light_blue(), black());
        self.add(button);
        assert(self@ =~= old(self)@ + keypad());
    }

    /// What to paint for every button, in placement order.
    pub fn draw(&self) -> (ops: Vec<DrawOp>)
        ensures
            ops@ == Seq::new(self@.len(), |i: int| self@[i].frame()).flatten(),
    {
        let mut ops: Vec<DrawOp> = Vec::new();
        let mut i: usize = 0;
        while i < self.buttons.len()
            invariant
                i <= self.buttons@.len(),
                ops@ == Seq::new(i as nat, |k: int| self.buttons@[k].frame()).flatten(),
            decreases self.buttons@.len() - i,
        {
            let mut more = self.buttons[i].draw();
            proof {
                let s = Seq::new(i as nat, |k: int| self.buttons@[k].frame());
                let s1 = Seq::new((i + 1) as nat, |k: int| self.buttons@[k].frame());
                assert(s1 =~= s.push(self.buttons@[i as int].frame()));
                s.lemma_flatten_push(self.buttons@[i as int].frame());
            }
            ops.append(&mut more);
            i += 1;
        }
        ops
    }

    /// What to paint for the buttons that carry the action, in placement order.
    pub fn draw_id(&self, id: Ids) -> (ops: Vec<DrawOp>)
        ensures
            ops@ == Seq::new(self@.len(), |i: int| frame_if(self@[i], id)).flatten(),
    {
        let mut ops: Vec<DrawOp> = Vec::new();
        let mut i: usize = 0;
        while i < self.buttons.len()
            invariant
                i <= self.buttons@.len(),
                ops@ == Seq::new(i as nat, |k: int| frame_if(self.buttons@[k], id)).flatten(),
            decreases self.buttons@.len() - i,
        {
            proof {
                let s = Seq::new(i as nat, |k: int| frame_if(self.buttons@[k], id));
                let s1 = Seq::new((i + 1) as nat, |k: int| frame_if(self.buttons@[k], id));
                assert(s1 =~= s.push(frame_if(self.buttons@[i as int], id)));
                s.lemma_flatten_push(frame_if(self.buttons@[i as int], id));
            }
            if self.buttons[i].id == id {
                let mut more = self.buttons[i].draw();
                ops.append(&mut more);
            } else {
                assert(ops@ =~= ops@ + Seq::<DrawOp>::empty());
            }
            i += 1;
        }
        ops
    }

    /// The action of the first region, in placement order, that holds the point,
    /// or `None` where no region does.
    pub fn locate(&self, x: u16, y: u16) -> (r: Option<Ids>)
        ensures
            r == hit(self@, x as int, y as int),
    {
        let mut i: usize = 0;
        while i < self.buttons.len()
            invariant
                i <= self.buttons@.len(),
                hit(self.buttons@, x as int, y as int) == hit_from(
                    self.buttons@,
                    i as int,
                    x as int,
                    y as int,
                ),
            decreases self.buttons@.len() - i,
        {
            if self.buttons[i].inside(x, y) {
                return Some(self.buttons[i].id);
            }
            i += 1;
        }
        None
    }

    /// Shows every button that carries the action pressed, or idle.
    pub fn set_active(&mut self, id: Ids, active: bool)
        ensures
            final(self)@ == old(self)@.map_values(|b: Button| marked(b, id, active)),
    {
        let mut i: usize = 0;
        while i < self.buttons.len()
            invariant
                i <= self.buttons@.len(),
                self.buttons@.len() == old(self)@.len(),
                forall|k: int| 0 <= k < i ==> self.buttons@[k] == marked(old(self)@[k], id, active),
                forall|k: int| i <= k < self.buttons@.len() ==> self.buttons@[k] == old(self)@[k],
            decreases self.buttons@.len() - i,
        {
            let mut b = self.buttons[i];
            if b.id == id {
                if active {
                    b.activate();
                } else {
                    b.deactivate();
                }
            }
            self.buttons.set(i, b);
            i += 1;
        }
        assert(self.buttons@ =~= old(self)@.map_values(|b: Button| marked(b, id, active)));
    }
}

/// An axis of the machine, one per readout.
#[derive(Clone, Copy, Debug, PartialEq, Eq, Structural)]
pub enum Axis {
    X,
    Y,
    Z,
    /// No axis.
    Unset,
}

/// What a touch means next.
#[derive(Clone, Copy, Debug, PartialEq, Eq, Structural)]
pub enum KeyState {
    /// Nothing under way.
    Waiting,
    /// A number is being typed into the readout of the axis.
    NumberEntry(Axis),
    /// The next axis key changes the sign of that axis.
    PlusMinus,
    /// The next axis key halves that axis.
    Half,
}

/// Something to draw again after a touch.
#[derive(Clone, Copy, Debug, PartialEq, Eq, Structural)]
pub enum Redraw {
    /// Every button that carries the action, as it now shows.
    Key(Ids),
    /// The readout of the axis.
    Axis(Axis),
}

/// What one poll of the touch panel brought about.
pub struct Step {
    /// What to draw again, in order.
    pub redraws: Vec<Redraw>,
    /// The result of an entry that ended on this poll: the value entered, or the
    /// code of the key that gave it up.
    pub entry: Option<Result<i64, u8>>,
}

/// Result code of an entry into no axis.
pub const NO_AXIS_CODE: u8 = 0xFD;

/// The value that the X zeroing key sets, in thousandths.
pub const X0_PRESET: i64 = 10_000;

/// The value that the Y zeroing key sets, in thousandths.
pub const Y0_PRESET: i64 = 0;

/// The value that the Z zeroing key sets, in thousandths.
pub const Z0_PRESET: i64 = -10_000;

/// What the dispatcher reads and writes: its state, the action under the finger,
/// and the entry part of each readout.
#[derive(Clone, Copy, Debug, PartialEq, Eq, Structural)]
pub struct Dispatch {
    pub key_state: KeyState,
    pub active_id: Option<Ids>,
    pub x: Entry,
    pub y: Entry,
    pub z: Entry,
}

/// The axis that an axis key selects.
pub open spec fn select_axis(id: Ids) -> Axis {
    match id {
        Ids::XButton => Axis::X,
        Ids::YButton => Axis::Y,
        Ids::ZButton => Axis::Z,
        _ => Axis::Unset,
    }
}

/// The axis that a zeroing key sets, and the value it sets.
pub open spec fn zero_preset(id: Ids) -> (Axis, i64) {
    match id {
        Ids::X0Button => (Axis::X, X0_PRESET),
        Ids::Y0Button => (Axis::Y, Y0_PRESET),
        Ids::Z0Button => (Axis::Z, Z0_PRESET),
        _ => (Axis::Unset, 0),
    }
}

pub open spec fn field_of(s: Dispatch, a: Axis) -> Entry {
    match a {
        Axis::X => s.x,
        Axis::Y => s.y,
        _ => s.z,
    }
}

/// The state with the readout of axis `a` replaced; no axis leaves it as it is.
pub open spec fn with_field(s: Dispatch, a: Axis, e: Entry) -> Dispatch {
    match a {
        Axis::X => Dispatch { x: e, ..s },
        Axis::Y => Dispatch { y: e, ..s },
        Axis::Z => Dispatch { z: e, ..s },
        Axis::Unset => s,
    }
}

/// What a newly touched action does in each state, and the result of an entry
/// that it ends.
pub open spec fn decide(s: Dispatch, id: Ids) -> (Dispatch, Option<Result<i64, u8>>) {
    match s.key_state {
        KeyState::Waiting => {
            let (za, zv) = zero_preset(id);
            let a = select_axis(id);
            if za != Axis::Unset {
                (with_field(s, za, Entry { value: zv, ..field_of(s, za) }), None)
            } else if a != Axis::Unset {
                (
                    Dispatch {
                        key_state: KeyState::NumberEntry(a),
                        ..with_field(s, a, start_step(field_of(s, a)))
                    },
                    None,
                )
            } else if id == Ids::PlusMinus {
                (Dispatch { key_state: KeyState::PlusMinus, ..s }, None)
            } else if id == Ids::Half {
                (Dispatch { key_state: KeyState::Half, ..s }, None)
            } else {
                (s, None)
            }
        },
        KeyState::NumberEntry(a) => {
            if a == Axis::Unset {
                (Dispatch { key_state: KeyState::Waiting, ..s }, Some(Err(NO_AXIS_CODE)))
            } else {
                let (e, r) = input_step(field_of(s, a), id);
                (
                    Dispatch {
                        key_state: if r is None {
                            KeyState::NumberEntry(a)
                        } else {
                            KeyState::Waiting
                        },
                        ..with_field(s, a, e)
                    },
                    r,
                )
            }
        },
        KeyState::PlusMinus => {
            let a = select_axis(id);
            (
                Dispatch {
                    key_state: KeyState::Waiting,
                    ..with_field(s, a, plus_minus_step(field_of(s, a)))
                },
                None,
            )
        },
        KeyState::Half => {
            let a = select_axis(id);
            (
                Dispatch {
                    key_state: KeyState::Waiting,
                    ..with_field(s, a, half_step(field_of(s, a)))
                },
                None,
            )
        },
    }
}

/// One poll: the action under the finger, or `None` when nothing is touched.
/// The same action as before changes nothing; otherwise it becomes the action
/// under the finger and, if there is one, is decided on.
pub open spec fn dispatch(s: Dispatch, src: Option<Ids>) -> (Dispatch, Option<Result<i64, u8>>) {
    if s.active_id == src {
        (s, None)
    } else {
        let s1 = Dispatch { active_id: src, ..s };
        match src {
            None => (s1, None),
            Some(id) => decide(s1, id),
        }
    }
}

/// The readouts that a newly touched action has drawn again.
pub open spec fn field_redraws(s: Dispatch, id: Ids) -> Seq<Redraw> {
    match s.key_state {
        KeyState::Waiting => {
            let (za, zv) = zero_preset(id);
            if za != Axis::Unset {
                seq![Redraw::Axis(za)]
            } else if select_axis(id) != Axis::Unset {
                seq![Redraw::Axis(select_axis(id))]
            } else {
                seq![]
            }
        },
        KeyState::NumberEntry(a) => if a != Axis::Unset && input_redraws(id) {
            seq![Redraw::Axis(a)]
        } else {
            seq![]
        },
        _ => if select_axis(id) != Axis::Unset {
            seq![Redraw::Axis(select_axis(id))]
        } else {
            seq![]
        },
    }
}

/// What one poll has drawn again: the buttons of the newly touched action, those
/// of the action released, then the readouts that changed.
pub open spec fn step_redraws(s: Dispatch, src: Option<Ids>) -> Seq<Redraw> {
    if s.active_id == src {
        seq![]
    } else {
        (match src {
            Some(id) => seq![Redraw::Key(id)],
            None => seq![],
        }) + (match s.active_id {
            Some(id) => seq![Redraw::Key(id)],
            None => seq![],
        }) + (match src {
            Some(id) => field_redraws(s, id),
            None => seq![],
        })
    }
}

/// Every region before index `i` that held the point would share it with region `i`.
proof fn lemma_hit_from(s: Seq<Button>, k: int, i: int, x: int, y: int)
    requires
        disjoint(s),
        0 <= k <= i < s.len(),
        contains(s[i], x, y),
    ensures
        hit_from(s, k, x, y) == Some(s[i].id),
    decreases i - k,
{
    if k < i {
        assert(!overlap(s[k], s[i]));
        lemma_hit_from(s, k + 1, i, x, y);
    }
}

/// Where no two regions overlap, a point inside a region finds that region's action.
pub proof fn lemma_locate_region(s: Seq<Button>, i: int, x: int, y: int)
    requires
        disjoint(s),
        0 <= i < s.len(),
        contains(s[i], x, y),
    ensures
        hit(s, x, y) == Some(s[i].id),
{
    lemma_hit_from(s, 0, i, x, y);
}

proof fn lemma_miss_from(s: Seq<Button>, k: int, x: int, y: int)
    requires
        0 <= k <= s.len(),
    ensures
        hit_from(s, k, x, y) is None <==> forall|j: int|
            k <= j < s.len() ==> !contains(#[trigger] s[j], x, y),
    decreases s.len() - k,
{
    if k < s.len() {
        lemma_miss_from(s, k + 1, x, y);
    }
}

/// A point finds no action exactly where it lies outside every region.
pub proof fn lemma_locate_outside(s: Seq<Button>, x: int, y: int)
    ensures
        hit(s, x, y) is None <==> forall|j: int|
            0 <= j < s.len() ==> !contains(#[trigger] s[j], x, y),
{
    lemma_miss_from(s, 0, x, y);
}

/// No two regions of the layout share a point.
pub proof fn lemma_keypad_disjoint()
    ensures
        disjoint(keypad()),
{
    let s = keypad();
    assert forall|j: int, k: int| 0 <= j < s.len() && 0 <= k < s.len() && j != k implies !overlap(
        s[j],
        s[k],
    ) by {
        if j < 9 {
            assert(s[j] == digit_key(j + 1));
        }
        if k < 9 {
            assert(s[k] == digit_key(k + 1));
        }
    }
}

/// A touch held on one region acts once: the next poll with the same action
/// changes nothing and draws nothing.
pub proof fn lemma_held_touch_acts_once(s: Dispatch, src: Option<Ids>)
    ensures
        dispatch(s, src).0.active_id == src,
        dispatch(dispatch(s, src).0, src) == (dispatch(s, src).0, None::<Result<i64, u8>>),
        step_redraws(dispatch(s, src).0, src) == Seq::<Redraw>::empty(),
{
}

/// The screen: the touch regions, the three axis readouts, and the dispatcher.
pub struct View {
    pub buttons: Buttons,
    pub x: SevenSegDisplay,
    pub y: SevenSegDisplay,
    pub z: SevenSegDisplay,
    /// The action under the finger at the last poll.
    pub active_id: Option<Ids>,
    pub key_state: KeyState,
}

impl View {
    pub open spec fn wf(&self) -> bool {
        self.buttons.wf() && self.x.wf() && self.y.wf() && self.z.wf()
    }

    pub open spec fn model(&self) -> Dispatch {
        Dispatch {
            key_state: self.key_state,
            active_id: self.active_id,
            x: self.x.entry(),
            y: self.y.entry(),
            z: self.z.entry(),
        }
    }

    /// The three readouts stacked at the left, showing -900, 100 and 20.145, and
    /// no regions yet.
    pub fn new() -> (v: View)
        ensures
            v.wf(),
            v.buttons@ == Seq::<Button>::empty(),
            v.model() == (Dispatch {
                key_state: KeyState::Waiting,
                active_id: None,
                x: Entry { value: -900_000i64, backup: 0, decimals: None, highlight: false },
                y: Entry { value: 100_000, backup: 0, decimals: None, highlight: false },
                z: Entry { value: 20_145, backup: 0, decimals: None, highlight: false },
            }),
            v.x.x == SEVEN_SEG_LEFT && v.x.y == SEVEN_SEG_TOP,
            v.y.x == SEVEN_SEG_LEFT && v.y.y == SEVEN_SEG_TOP + SEVEN_SEG_VSPACE,
            v.z.x == SEVEN_SEG_LEFT && v.z.y == SEVEN_SEG_TOP + 2 * SEVEN_SEG_VSPACE,
            v.x.width == SEVEN_SEG_WIDTH && v.y.width == SEVEN_SEG_WIDTH,
            v.z.width == SEVEN_SEG_WIDTH,
            v.x.height == SEVEN_SEG_HEIGHT && v.y.height == SEVEN_SEG_HEIGHT && v.z.height
                == SEVEN_SEG_HEIGHT,
    {
        let mut x = SevenSegDisplay::new(
            SEVEN_SEG_LEFT,
            SEVEN_SEG_TOP,
            SEVEN_SEG_WIDTH,
            SEVEN_SEG_HEIGHT,
        );
        x.set_value(-900_000);
        let mut y = SevenSegDisplay::new(
            SEVEN_SEG_LEFT,
            SEVEN_SEG_TOP + SEVEN_SEG_VSPACE,
            SEVEN_SEG_WIDTH,
            SEVEN_SEG_HEIGHT,
        );
        y.set_value(100_000);
        let mut z = SevenSegDisplay::new(
            SEVEN_SEG_LEFT,
            SEVEN_SEG_TOP + 2 * SEVEN_SEG_VSPACE,
            SEVEN_SEG_WIDTH,
            SEVEN_SEG_HEIGHT,
        );
        z.set_value(20_145);
        View { buttons: Buttons::new(), x, y, z, active_id: None, key_state: KeyState::Waiting }
    }

    /// Places the keypad and the other regions.
    pub fn fill(&mut self)
        requires
            old(self).wf(),
            old(self).buttons@.len() + KEYPAD_KEYS <= MAXKEYS,
        ensures
            final(self).wf(),
            final(self).buttons@ == old(self).buttons@ + keypad(),
            final(self).model() == old(self).model(),
    {
        self.buttons.make_keys();
    }

    /// The whole screen, in painting order: background, buttons, then the
    /// readouts of X, Y and Z.
    pub fn update(&self) -> (ops: Vec<DrawOp>)
        requires
            self.wf(),
        ensures
            ops@ == seq![
                DrawOp::Block {
                    x0: 0,
                    y0: 0,
                    x1: WIDTH as i32,
                    y1: HEIGHT as i32,
                    packed: packed_of(background_color()) as u32,
                },
            ] + Seq::new(self.buttons@.len(), |i: int| self.buttons@[i].frame()).flatten()
                + self.x.frame() + self.y.frame() + self.z.frame(),
    {
        let mut ops: Vec<DrawOp> = Vec::new();
        ops.push(draw_background());
        let mut more = self.buttons.draw();
        ops.append(&mut more);
        let mut more = self.x.draw();
        ops.append(&mut more);
        let mut more = self.y.draw();
        ops.append(&mut more);
        let mut more = self.z.draw();
        ops.append(&mut more);
        ops
    }

    /// What to paint for one redraw request.
    pub fn redraw(&self, r: Redraw) -> (ops: Vec<DrawOp>)
        requires
            self.wf(),
        ensures
            ops@ == match r {
                Redraw::Key(id) => Seq::new(
                    self.buttons@.len(),
                    |i: int| frame_if(self.buttons@[i], id),
                ).flatten(),
                Redraw::Axis(Axis::X) => self.x.frame(),
                Redraw::Axis(Axis::Y) => self.y.frame(),
                Redraw::Axis(Axis::Z) => self.z.frame(),
                Redraw::Axis(Axis::Unset) => Seq::<DrawOp>::empty(),
            },
    {
        match r {
            Redraw::Key(id) => self.buttons.draw_id(id),
            Redraw::Axis(Axis::X) => self.x.draw(),
            Redraw::Axis(Axis::Y) => self.y.draw(),
            Redraw::Axis(Axis::Z) => self.z.draw(),
            Redraw::Axis(Axis::Unset) => Vec::new(),
        }
    }

    /// The action of the region under (x, y), if any.
    pub fn button_id_from_coords(&self, x: u16, y: u16) -> (r: Option<Ids>)
        ensures
            r == hit(self.buttons@, x as int, y as int),
    {
        self.buttons.locate(x, y)
    }

    /// Shows the buttons of the action, if there is one, pressed.
    pub fn activate_button_from_id(&mut self, id_in: Option<Ids>)
        ensures
            final(self).buttons@ == match id_in {
                Some(id) => old(self).buttons@.map_values(|b: Button| marked(b, id, true)),
                None => old(self).buttons@,
            },
            final(self).model() == old(self).model(),
            final(self).x == old(self).x,
            final(self).y == old(self).y,
            final(self).z == old(self).z,
    {
        if let Some(id) = id_in {
            self.buttons.set_active(id, true);
        }
    }

    /// Shows the buttons of the action, if there is one, idle.
    pub fn deactivate_button_from_id(&mut self, id_in: Option<Ids>)
        ensures
            final(self).buttons@ == match id_in {
                Some(id) => old(self).buttons@.map_values(|b: Button| marked(b, id, false)),
                None => old(self).buttons@,
            },
            final(self).model() == old(self).model(),
            final(self).x == old(self).x,
            final(self).y == old(self).y,
            final(self).z == old(self).z,
    {
        if let Some(id) = id_in {
            self.buttons.set_active(id, false);
        }
    }
    /// Decides on a newly touched action; see `decide`. The readouts to draw again
    /// are added to `redraws`.
    fn decide_key(&mut self, id: Ids, redraws: &mut Vec<Redraw>) -> (r: Option<Result<i64, u8>>)
        requires
            old(self).wf(),
        ensures
            final(self).wf(),
            (final(self).model(), r) == decide(old(self).model(), id),
            final(redraws)@ == old(redraws)@ + field_redraws(old(self).model(), id),
            final(self).buttons@ == old(self).buttons@,
            final(self).x.same_look(&old(self).x),
            final(self).y.same_look(&old(self).y),
            final(self).z.same_look(&old(self).z),
    {
        match self.key_state {
            KeyState::Waiting => {
                match id {
                    Ids::X0Button => {
                        self.x.set_value(X0_PRESET);
                        redraws.push(Redraw::Axis(Axis::X));
                    },
                    Ids::Y0Button => {
                        self.y.set_value(Y0_PRESET);
                        redraws.push(Redraw::Axis(Axis::Y));
                    },
                    Ids::Z0Button => {
                        self.z.set_value(Z0_PRESET);
                        redraws.push(Redraw::Axis(Axis::Z));
                    },
                    Ids::XButton => {
                        self.x.start();
                        self.key_state = KeyState::NumberEntry(Axis::X);
                        redraws.push(Redraw::Axis(Axis::X));
                    },
                    Ids::YButton => {
                        self.y.start();
                        self.key_state = KeyState::NumberEntry(Axis::Y);
                        redraws.push(Redraw::Axis(Axis::Y));
                    },
                    Ids::ZButton => {
                        self.z.start();
                        self.key_state = KeyState::NumberEntry(Axis::Z);
                        redraws.push(Redraw::Axis(Axis::Z));
                    },
                    Ids::PlusMinus => {
                        self.key_state = KeyState::PlusMinus;
                    },
                    Ids::Half => {
                        self.key_state = KeyState::Half;
                    },
                    _ => {},
                }
                None
            },
            KeyState::NumberEntry(axis) => {
                let result = match axis {
                    Axis::X => self.x.input(id),
                    Axis::Y => self.y.input(id),
                    Axis::Z => self.z.input(id),
                    Axis::Unset => Some(Err(NO_AXIS_CODE)),
                };
                if axis != Axis::Unset && id != Ids::DecimalPoint {
                    redraws.push(Redraw::Axis(axis));
                }
                if result.is_some() {
                    self.key_state = KeyState::Waiting;
                }
                result
            },
            KeyState::PlusMinus => {
                match id {
                    Ids::XButton => {
                        self.x.plus_minus();
                        redraws.push(Redraw::Axis(Axis::X));
                    },
                    Ids::YButton => {
                        self.y.plus_minus();
                        redraws.push(Redraw::Axis(Axis::Y));
                    },
                    Ids::ZButton => {
                        self.z.plus_minus();
                        redraws.push(Redraw::Axis(Axis::Z));
                    },
                    _ => {},
                }
                self.key_state = KeyState::Waiting;
                None
            },
            KeyState::Half => {
                match id {
                    Ids::XButton => {
                        self.x.half();
                        redraws.push(Redraw::Axis(Axis::X));
                    },
                    Ids::YButton => {
                        self.y.half();
                        redraws.push(Redraw::Axis(Axis::Y));
                    },
                    Ids::ZButton => {
                        self.z.half();
                        redraws.push(Redraw::Axis(Axis::Z));
                    },
                    _ => {},
                }
                self.key_state = KeyState::Waiting;
                None
            },
        }
    }

    /// Takes one poll of the touch panel: the action of the region under the
    /// finger, or `None` when nothing is touched. A touch held on the same region
    /// changes nothing. Otherwise the buttons show the new press, and the action
    /// is decided on as `dispatch` says.
    pub fn process_button(&mut self, src: Option<Ids>) -> (step: Step)
        requires
            old(self).wf(),
        ensures
            final(self).wf(),
            (final(self).model(), step.entry) == dispatch(old(self).model(), src),
            step.redraws@ == step_redraws(old(self).model(), src),
            final(self).buttons@ == if old(self).active_id == src {
                old(self).buttons@
            } else {
                old(self).buttons@.map_values(|b: Button| pressed(b, src, old(self).active_id))
            },
            final(self).x.same_look(&old(self).x),
            final(self).y.same_look(&old(self).y),
            final(self).z.same_look(&old(self).z),
    {
        if self.active_id == src {
            return Step { redraws: Vec::new(), entry: None };
        }
        let before = self.active_id;
        self.activate_button_from_id(src);
        self.deactivate_button_from_id(before);
        assert(self.buttons@ =~= old(self).buttons@.map_values(
            |b: Button| pressed(b, src, before),
        ));
        self.active_id = src;
        let mut redraws: Vec<Redraw> = Vec::new();
        if let Some(id) = src {
            redraws.push(Redraw::Key(id));
        }
        if let Some(id) = before {
            redraws.push(Redraw::Key(id));
        }
        let entry = match src {
            None => None,
            Some(id) => self.decide_key(id, &mut redraws),
        };
        assert(redraws@ =~= step_redraws(old(self).model(), src));
        Step { redraws, entry }
    }
}

} // verus!
