//! A seven-segment numeric field: one axis value, its display buffer, and the
//! rules for typing a number into it.
//!
//! Values are signed fixed-point numbers counted in thousandths.
use vstd::arithmetic::div_mod::{
    lemma_div_denominator, lemma_div_is_ordered, lemma_div_pos_is_pos, lemma_fundamental_div_mod,
    lemma_mod_pos_bound, lemma_small_mod,
};
use vstd::prelude::*;

use crate::color::{packed_of, Color};
use crate::consts::{black, cyan, yellow, MINUS_WIDTH};
use crate::render::DrawOp;
use crate::ui::Ids;

verus! {

/// Largest magnitude, in thousandths, that a field holds (that of `i64::MAX`);
/// typing past it saturates.
pub const VALUE_LIMIT: i64 = 9_223_372_036_854_775_807;

/// Magnitudes from this many thousandths (1000.000) up show as all nines.
pub const DISPLAY_LIMIT: i64 = 1_000_000;

/// Result code of an entry ended by the clear key.
pub const CLEAR_CODE: u8 = 0xFF;

/// Result code of an entry ended by a key that has no meaning during entry.
pub const ABORT_CODE: u8 = 0xFE;

/// Decimals that can follow the decimal point.
pub const N_DECIMALS: u8 = 3;

/// The absolute value.
pub open spec fn magnitude(v: int) -> nat {
    if v < 0 { (-v) as nat } else { v as nat }
}

/// A value held within the field's range.
pub open spec fn saturate(v: int) -> int {
    if v > VALUE_LIMIT { VALUE_LIMIT as int }
    else if v < -VALUE_LIMIT { -VALUE_LIMIT as int }
    else { v }
}

/// The character of a decimal digit.
pub open spec fn digit_char(d: int) -> char {
    if d == 0 { '0' }
    else if d == 1 { '1' }
    else if d == 2 { '2' }
    else if d == 3 { '3' }
    else if d == 4 { '4' }
    else if d == 5 { '5' }
    else if d == 6 { '6' }
    else if d == 7 { '7' }
    else if d == 8 { '8' }
    else { '9' }
}

/// The numeric value of a digit character.
pub open spec fn char_digit(c: char) -> int {
    if c == '0' { 0 }
    else if c == '1' { 1 }
    else if c == '2' { 2 }
    else if c == '3' { 3 }
    else if c == '4' { 4 }
    else if c == '5' { 5 }
    else if c == '6' { 6 }
    else if c == '7' { 7 }
    else if c == '8' { 8 }
    else { 9 }
}

/// `m` as six decimal digits, most significant first, zero padded.
pub open spec fn six_digits(m: nat) -> Seq<char> {
    seq![
        digit_char((m / 100000) as int % 10),
        digit_char((m / 10000) as int % 10),
        digit_char((m / 1000) as int % 10),
        digit_char((m / 100) as int % 10),
        digit_char((m / 10) as int % 10),
        digit_char(m as int % 10),
    ]
}

/// The number that six digit characters spell.
pub open spec fn read_digits(t: Seq<char>) -> int {
    100000 * char_digit(t[0]) + 10000 * char_digit(t[1]) + 1000 * char_digit(t[2])
        + 100 * char_digit(t[3]) + 10 * char_digit(t[4]) + char_digit(t[5])
}

/// The display buffer of a value in thousandths: three integer digits and three
/// decimals of its magnitude, or all nines from 1000 up.
pub open spec fn display_text(v: int) -> Seq<char> {
    if magnitude(v) >= DISPLAY_LIMIT { seq!['9', '9', '9', '9', '9', '9'] }
    else { six_digits(magnitude(v)) }
}

/// The part of a field that numeric entry reads and writes.
#[derive(Clone, Copy, Debug, PartialEq, Eq, Structural)]
pub struct Entry {
    pub value: i64,
    pub backup: i64,
    pub decimals: Option<u8>,
    pub highlight: bool,
}

/// A value halved, rounded toward zero to the thousandth.
pub open spec fn halved(v: int) -> int {
    if v < 0 { -((-v) / 2) } else { v / 2 }
}

/// The value after digit `d` is typed: appended to the integer part before the
/// decimal point, then added at the next decimal place, and ignored once three
/// decimals are in.
pub open spec fn typed_value(v: int, decimals: Option<u8>, d: int) -> int {
    match decimals {
        None => saturate(v * 10 + d * 1000),
        Some(n) => if n == 0 {
            saturate(v + d * 100)
        } else if n == 1 {
            saturate(v + d * 10)
        } else if n == 2 {
            saturate(v + d)
        } else {
            v
        },
    }
}

/// The decimal count after a digit is typed.
pub open spec fn typed_decimals(decimals: Option<u8>) -> Option<u8> {
    match decimals {
        None => None,
        Some(n) => if n < N_DECIMALS { Some((n + 1) as u8) } else { Some(n) },
    }
}

/// What one key does to a field that takes a number, and whether the entry ends:
/// `None` while it goes on, `Some(Ok(value))` when it is entered, `Some(Err(code))`
/// when it is given up and the value from before is back.
pub open spec fn input_step(e: Entry, key: Ids) -> (Entry, Option<Result<i64, u8>>) {
    match key {
        Ids::Key(d) => (
            Entry {
                value: typed_value(e.value as int, e.decimals, d as int) as i64,
                decimals: typed_decimals(e.decimals),
                ..e
            },
            None,
        ),
        Ids::DecimalPoint => (
            Entry { decimals: if e.decimals is None { Some(0u8) } else { e.decimals }, ..e },
            None,
        ),
        Ids::Clear => (Entry { value: e.backup, highlight: false, ..e }, Some(Err(CLEAR_CODE))),
        Ids::PlusMinus => (Entry { value: (-e.value) as i64, ..e }, None),
        Ids::Half => (Entry { value: halved(e.value as int) as i64, ..e }, None),
        Ids::Enter => (Entry { highlight: false, ..e }, Some(Ok(e.value))),
        _ => (Entry { value: e.backup, highlight: false, ..e }, Some(Err(ABORT_CODE))),
    }
}

/// Whether a key during entry has the field drawn again.
pub open spec fn input_redraws(key: Ids) -> bool {
    key != Ids::DecimalPoint
}

/// The start of an entry: the value is kept aside and the field shows zero.
pub open spec fn start_step(e: Entry) -> Entry {
    Entry { value: 0, backup: e.value, decimals: None, highlight: true }
}

/// The sign change applied outside entry.
pub open spec fn plus_minus_step(e: Entry) -> Entry {
    Entry { value: (-e.value) as i64, highlight: false, ..e }
}

/// The halving applied outside entry.
pub open spec fn half_step(e: Entry) -> Entry {
    Entry { value: halved(e.value as int) as i64, highlight: false, ..e }
}

/// Where the minus sign goes, counted in integer digits: one below 10 (a units
/// digit of 0 included), two below 100, three otherwise.
pub open spec fn minus_digits(v: int) -> int {
    if -100000 < v && v <= -10000 { 2 }
    else if -10000 < v && v < 0 { 1 }
    else { 3 }
}

/// Whether the digit at position `i` of the buffer is a leading zero left blank.
pub open spec fn blank_digit(t: Seq<char>, i: int) -> bool {
    (i == 0 && t[0] == '0') || (i == 1 && t[0] == '0' && t[1] == '0')
}

/// Whether a key keeps an entry going: a digit, the decimal point, a sign
/// change or a halving.
pub open spec fn keeps_entry(key: Ids) -> bool {
    key is Key || key == Ids::DecimalPoint || key == Ids::PlusMinus || key == Ids::Half
}

/// The entry after the keys are typed one after another.
pub open spec fn type_keys(e: Entry, keys: Seq<Ids>) -> Entry
    decreases keys.len(),
{
    if keys.len() == 0 {
        e
    } else {
        type_keys(input_step(e, keys[0]).0, keys.drop_first())
    }
}

/// The digits of a number below a million read back as that number: the buffer
/// of a value below 1000 in magnitude is its magnitude in thousandths, zero padded.
pub proof fn lemma_display_reads_back(v: int)
    requires
        magnitude(v) < DISPLAY_LIMIT,
    ensures
        display_text(v).len() == 6,
        read_digits(display_text(v)) == magnitude(v),
{
    let m = magnitude(v) as int;
    assert forall|d: int| 0 <= d <= 9 implies char_digit(#[trigger] digit_char(d)) == d by {}
    lemma_fundamental_div_mod(m, 10);
    lemma_fundamental_div_mod(m / 10, 10);
    lemma_fundamental_div_mod(m / 100, 10);
    lemma_fundamental_div_mod(m / 1000, 10);
    lemma_fundamental_div_mod(m / 10000, 10);
    lemma_div_denominator(m, 10, 10);
    lemma_div_denominator(m, 100, 10);
    lemma_div_denominator(m, 1000, 10);
    lemma_div_denominator(m, 10000, 10);
    lemma_mod_pos_bound(m, 10);
    lemma_mod_pos_bound(m / 10, 10);
    lemma_mod_pos_bound(m / 100, 10);
    lemma_mod_pos_bound(m / 1000, 10);
    lemma_mod_pos_bound(m / 10000, 10);
    lemma_div_pos_is_pos(m, 100000);
    lemma_div_is_ordered(m, 999999, 100000);
    assert(999999int / 100000 == 9);
    lemma_small_mod((m / 100000) as nat, 10);
}

/// Past three decimals a digit key changes nothing and the entry goes on.
pub proof fn lemma_fourth_decimal_ignored(e: Entry, d: u8)
    requires
        e.decimals == Some(3u8),
    ensures
        input_step(e, Ids::Key(d)) == (e, None::<Result<i64, u8>>),
{
}

/// Keys that keep an entry going never end it and never touch the value kept aside.
pub proof fn lemma_typing_keeps_backup(e: Entry, keys: Seq<Ids>)
    requires
        forall|i: int| 0 <= i < keys.len() ==> keeps_entry(#[trigger] keys[i]),
    ensures
        type_keys(e, keys).backup == e.backup,
    decreases keys.len(),
{
    if keys.len() > 0 {
        let next = input_step(e, keys[0]).0;
        assert(next.backup == e.backup);
        assert forall|i: int| 0 <= i < keys.drop_first().len() implies keeps_entry(
            #[trigger] keys.drop_first()[i],
        ) by {
            assert(keys.drop_first()[i] == keys[i + 1]);
        }
        lemma_typing_keeps_backup(next, keys.drop_first());
    }
}

/// Giving up an entry, by the clear key or by any key with no meaning during
/// entry, brings back exactly the value from before the entry began, whatever was
/// typed in between.
pub proof fn lemma_cancel_restores(e: Entry, keys: Seq<Ids>, last: Ids)
    requires
        forall|i: int| 0 <= i < keys.len() ==> keeps_entry(#[trigger] keys[i]),
        !keeps_entry(last),
        last != Ids::Enter,
    ensures
        input_step(type_keys(start_step(e), keys), last).0.value == e.value,
        input_step(type_keys(start_step(e), keys), last).1 == Some(
            Err::<i64, u8>(if last == Ids::Clear { CLEAR_CODE } else { ABORT_CODE }),
        ),
{
    lemma_typing_keeps_backup(start_step(e), keys);
}

/// A seven-segment readout of one axis.
#[derive(Clone, Copy, Debug)]
pub struct SevenSegDisplay {
    pub x: u16,
    pub y: u16,
    pub is_metric: bool,
    pub width: u16,
    pub height: u16,
    pub text_x: u16,
    pub text_y: u16,
    pub highlight: bool,
    pub fill_color: Color,
    pub text_clr: Color,
    pub highlight_text_color: Color,
    /// Three integer digits then three decimals of the magnitude.
    pub text: [char; 6],
    /// The value, in thousandths.
    pub value: i64,
    /// The value before the entry that is under way.
    pub backup_value: i64,
    /// `None` until the decimal point is typed, then the count of decimals typed.
    pub decimal_digits: Option<u8>,
    pub negative: bool,
}

impl SevenSegDisplay {
    /// Values within the field's range, and a buffer and sign that show the value.
    pub open spec fn wf(&self) -> bool {
        &&& -VALUE_LIMIT <= self.value <= VALUE_LIMIT
        &&& -VALUE_LIMIT <= self.backup_value <= VALUE_LIMIT
        &&& self.text@ == display_text(self.value as int)
        &&& self.negative == (self.value < 0)
        &&& match self.decimal_digits {
            Some(d) => d <= N_DECIMALS,
            None => true,
        }
    }

    pub open spec fn entry(&self) -> Entry {
        Entry {
            value: self.value,
            backup: self.backup_value,
            decimals: self.decimal_digits,
            highlight: self.highlight,
        }
    }

    /// Position, size and colours agree.
    pub open spec fn same_look(&self, o: &SevenSegDisplay) -> bool {
        &&& self.x == o.x && self.y == o.y && self.width == o.width && self.height == o.height
        &&& self.text_x == o.text_x && self.text_y == o.text_y && self.is_metric == o.is_metric
        &&& self.fill_color == o.fill_color && self.text_clr == o.text_clr
        &&& self.highlight_text_color == o.highlight_text_color
    }

    /// A field at (x, y) of the given size, showing zero.
    pub fn new(x: u16, y: u16, width: u16, height: u16) -> (d: SevenSegDisplay)
        requires
            x <= u16::MAX - 7,
            y <= u16::MAX - 20,
        ensures
            d.wf(),
            d.x == x && d.y == y && d.width == width && d.height == height,
            d.text_x == x + 7 && d.text_y == y + 20,
            d.is_metric,
            d.fill_color == black() && d.text_clr == yellow() && d.highlight_text_color == cyan(),
            d.entry() == (Entry { value: 0, backup: 0, decimals: None, highlight: false }),
    {
        let d = SevenSegDisplay {
            x,
            y,
            width,
            height,
            text_x: x + 7,
            text_y: y + 20,
            is_metric: true,
            highlight: false,
            fill_color: black(),
            text_clr: yellow(),
            highlight_text_color: cyan(),
            text: ['0', '0', '0', '0', '0', '0'],
            value: 0,
            backup_value: 0,
            negative: false,
            decimal_digits: None,
        };
        assert(d.text@ =~= display_text(0));
        d
    }

    /// The colour of the digits: the highlight colour while the field takes a number.
    pub fn text_color(&self) -> (c: Color)
        ensures
            c == if self.highlight { self.highlight_text_color } else { self.text_clr },
    {
        if self.highlight {
            self.highlight_text_color
        } else {
            self.text_clr
        }
    }

    /// Sets the value and its display buffer: the sign apart, and the magnitude
    /// as three integer digits and three decimals, or all nines from 1000 up.
    pub fn set_value(&mut self, value: i64)
        requires
            -VALUE_LIMIT <= value <= VALUE_LIMIT,
            old(self).wf(),
        ensures
            final(self).wf(),
            final(self).value == value,
            final(self).negative == (value < 0),
            final(self).text@ == display_text(value as int),
            magnitude(value as int) >= DISPLAY_LIMIT ==> final(self).text@ == seq![
                '9',
                '9',
                '9',
                '9',
                '9',
                '9',
            ],
            final(self).same_look(old(self)),
            final(self).backup_value == old(self).backup_value,
            final(self).decimal_digits == old(self).decimal_digits,
            final(self).highlight == old(self).highlight,
    {
        self.value = value;
        self.negative = value < 0;
        let magnitude: i64 = if value < 0 { 0 - value } else { value };
        if magnitude >= DISPLAY_LIMIT {
            self.text = ['9', '9', '9', '9', '9', '9'];
        } else {
            let m = magnitude as u32;
            self.text = [
                digit_glyph(m / 100000 % 10),
                digit_glyph(m / 10000 % 10),
                digit_glyph(m / 1000 % 10),
                digit_glyph(m / 100 % 10),
                digit_glyph(m / 10 % 10),
                digit_glyph(m % 10),
            ];
        }
        assert(self.text@ =~= display_text(value as int));
    }

    pub fn get_value(&self) -> (v: i64)
        ensures
            v == self.value,
    {
        self.value
    }

    pub fn set_highlight_text(&mut self)
        ensures
            *final(self) == (SevenSegDisplay { highlight: true, ..*old(self) }),
    {
        self.highlight = true;
    }

    pub fn clear_highlight_text(&mut self)
        ensures
            *final(self) == (SevenSegDisplay { highlight: false, ..*old(self) }),
    {
        self.highlight = false;
    }

    /// Sets the panel fill and the digit colour.
    pub fn change_colors(&mut self, fill: Color, text: Color)
        ensures
            *final(self) == (SevenSegDisplay { fill_color: fill, text_clr: text, ..*old(self) }),
    {
        self.fill_color = fill;
        self.text_clr = text;
    }

    /// The colour that the digits are drawn in.
    pub open spec fn shown_color(&self) -> Color {
        if self.highlight { self.highlight_text_color } else { self.text_clr }
    }

    /// The panel behind the digits.
    pub open spec fn background_op(&self) -> DrawOp {
        DrawOp::Panel {
            x: self.x as i32,
            y: self.y as i32,
            width: self.width as i32,
            height: self.height as i32,
            fill: self.fill_color,
        }
    }

    /// The bar of the minus sign, placed by the count of integer digits.
    pub open spec fn minus_op(&self) -> DrawOp {
        self.minus_bar(minus_digits(self.value as int))
    }

    /// The bar of the minus sign before `n` integer digits.
    pub open spec fn minus_bar(&self, n: int) -> DrawOp {
        let x = self.text_x + (3 - n) * 27;
        DrawOp::Block {
            x0: x as i32,
            y0: (self.text_y + 6) as i32,
            x1: (x + MINUS_WIDTH) as i32,
            y1: (self.text_y + 10) as i32,
            packed: packed_of(self.shown_color()) as u32,
        }
    }

    /// The decimal point, a small block between the third and fourth digits.
    pub open spec fn point_op(&self) -> DrawOp {
        DrawOp::Block {
            x0: (self.text_x + 81 + MINUS_WIDTH + 4) as i32,
            y0: (self.text_y + 24) as i32,
            x1: (self.text_x + 81 + MINUS_WIDTH + 8) as i32,
            y1: (self.text_y + 28) as i32,
            packed: packed_of(self.shown_color()) as u32,
        }
    }

    /// The glyph of buffer position `i`; the three decimals sit past the point.
    pub open spec fn digit_op(&self, i: int) -> DrawOp {
        let offset = if i < 3 { MINUS_WIDTH + 4 } else { MINUS_WIDTH + 12 };
        DrawOp::Digit {
            x: (self.text_x + i * 27 + offset) as i32,
            y: (self.text_y - 5) as i32,
            ch: self.text@[i],
            color: self.shown_color(),
        }
    }

    /// The glyph of position `i`, or nothing for a blank leading zero.
    pub open spec fn shown_digit(&self, i: int) -> Seq<DrawOp> {
        if blank_digit(self.text@, i) { seq![] } else { seq![self.digit_op(i)] }
    }

    /// Everything drawn for the field, in painting order: the panel, the minus
    /// sign of a negative value, the digits with leading zeros of the hundreds
    /// and tens left blank, and the decimal point before the fourth digit.
    pub open spec fn frame(&self) -> Seq<DrawOp> {
        seq![self.background_op()]
            + (if self.value < 0 { seq![self.minus_op()] } else { seq![] })
            + self.shown_digit(0) + self.shown_digit(1)
            + seq![
                self.digit_op(2),
                self.point_op(),
                self.digit_op(3),
                self.digit_op(4),
                self.digit_op(5),
            ]
    }

    fn draw_background(&self) -> (op: DrawOp)
        ensures
            op == self.background_op(),
    {
        DrawOp::Panel {
            x: self.x as i32,
            y: self.y as i32,
            width: self.width as i32,
            height: self.height as i32,
            fill: self.fill_color,
        }
    }

    /// Takes the count of integer digits that the minus sign goes before; counts
    /// above 3 act as 3, which puts the sign in the leftmost place.
    fn draw_minus(&self, n_digits: u16) -> (op: DrawOp)
        requires
            1 <= n_digits,
        ensures
            op == self.minus_bar(if n_digits > 3 { 3 } else { n_digits as int }),
    {
        let n: u16 = if n_digits > 3 { 3 } else { n_digits };
        let c = self.text_color().packed();
        let x_pos = self.text_x as i32 + (3 - n as i32) * 27;
        DrawOp::Block {
            x0: x_pos,
            y0: self.text_y as i32 + 6,
            x1: x_pos + MINUS_WIDTH as i32,
            y1: self.text_y as i32 + 10,
            packed: c,
        }
    }

    /// What to paint for the field; see `frame`.
    pub fn draw(&self) -> (ops: Vec<DrawOp>)
        requires
            self.wf(),
        ensures
            ops@ == self.frame(),
    {
        let mut ops: Vec<DrawOp> = Vec::new();
        ops.push(self.draw_background());
        let color = self.text_color();
        let packed = color.packed();
        if self.value < 0 {
            let mut minus_digits: u16 = 3;
            if self.value <= -10000 && self.value > -100000 {
                minus_digits = 2;
            }
            if self.value < 0 && self.value > -10000 {
                minus_digits = 1;
            }
            ops.push(self.draw_minus(minus_digits));
        }
        let text_x = self.text_x as i32;
        let y = self.text_y as i32 - 5;
        let lead = MINUS_WIDTH as i32 + 4;
        if self.text[0] != '0' {
            ops.push(DrawOp::Digit { x: text_x + lead, y, ch: self.text[0], color });
        }
        if !(self.text[0] == '0' && self.text[1] == '0') {
            ops.push(DrawOp::Digit { x: text_x + 27 + lead, y, ch: self.text[1], color });
        }
        ops.push(DrawOp::Digit { x: text_x + 54 + lead, y, ch: self.text[2], color });
        ops.push(DrawOp::Block {
            x0: text_x + 81 + lead,
            y0: self.text_y as i32 + 24,
            x1: text_x + 81 + lead + 4,
            y1: self.text_y as i32 + 28,
            packed,
        });
        let tail = lead + 8;
        ops.push(DrawOp::Digit { x: text_x + 81 + tail, y, ch: self.text[3], color });
        ops.push(DrawOp::Digit { x: text_x + 108 + tail, y, ch: self.text[4], color });
        ops.push(DrawOp::Digit { x: text_x + 135 + tail, y, ch: self.text[5], color });
        assert(ops@ =~= self.frame());
        ops
    }

    /// Begins an entry: keeps the value aside, highlights the field and shows zero.
    /// The field is then drawn again.
    pub fn start(&mut self)
        requires
            old(self).wf(),
        ensures
            final(self).wf(),
            final(self).same_look(old(self)),
            final(self).entry() == start_step(old(self).entry()),
    {
        self.backup_value = self.value;
        self.set_highlight_text();
        self.decimal_digits = None;
        self.set_value(0);
    }

    /// Changes the sign of the value outside entry; the field is then drawn again.
    pub fn plus_minus(&mut self)
        requires
            old(self).wf(),
        ensures
            final(self).wf(),
            final(self).same_look(old(self)),
            final(self).entry() == plus_minus_step(old(self).entry()),
    {
        self.clear_highlight_text();
        let v = 0 - self.value;
        self.set_value(v);
    }

    /// Halves the value outside entry, toward zero to the thousandth; the field is
    /// then drawn again.
    pub fn half(&mut self)
        requires
            old(self).wf(),
        ensures
            final(self).wf(),
            final(self).same_look(old(self)),
            final(self).entry() == half_step(old(self).entry()),
    {
        self.clear_highlight_text();
        let v = half_of(self.value);
        self.set_value(v);
    }

    /// Takes one key of an entry; see `input_step` for what each key does.
    /// The field is drawn again after every key but the decimal point.
    pub fn input(&mut self, key: Ids) -> (r: Option<Result<i64, u8>>)
        requires
            old(self).wf(),
        ensures
            final(self).wf(),
            final(self).same_look(old(self)),
            (final(self).entry(), r) == input_step(old(self).entry(), key),
    {
        match key {
            Ids::Key(key) => {
                let k = key as i64;
                match self.decimal_digits {
                    None => {
                        let v = saturating(self.value as i128 * 10 + k as i128 * 1000);
                        self.set_value(v);
                    },
                    Some(d) => {
                        if d == 0 {
                            let v = saturating(self.value as i128 + k as i128 * 100);
                            self.decimal_digits = Some(1);
                            self.set_value(v);
                        } else if d == 1 {
                            let v = saturating(self.value as i128 + k as i128 * 10);
                            self.decimal_digits = Some(2);
                            self.set_value(v);
                        } else if d == 2 {
                            let v = saturating(self.value as i128 + k as i128);
                            self.decimal_digits = Some(3);
                            self.set_value(v);
                        }
                    },
                }
                None
            },
            Ids::DecimalPoint => {
                if self.decimal_digits.is_none() {
                    self.decimal_digits = Some(0);
                }
                None
            },
            Ids::Clear => {
                let v = self.backup_value;
                self.set_value(v);
                self.clear_highlight_text();
                Some(Err(CLEAR_CODE))
            },
            Ids::PlusMinus => {
                let v = 0 - self.value;
                self.set_value(v);
                None
            },
            Ids::Half => {
                let v = half_of(self.value);
                self.set_value(v);
                None
            },
            Ids::Enter => {
                self.clear_highlight_text();
                Some(Ok(self.value))
            },
            _ => {
                let v = self.backup_value;
                self.set_value(v);
                self.clear_highlight_text();
                Some(Err(ABORT_CODE))
            },
        }
    }
}

/// Limits a value to the field's range.
fn saturating(v: i128) -> (r: i64)
    requires
        -20 * VALUE_LIMIT <= v <= 20 * VALUE_LIMIT,
    ensures
        r == saturate(v as int),
{
    if v > VALUE_LIMIT as i128 {
        VALUE_LIMIT
    } else if v < -(VALUE_LIMIT as i128) {
        -VALUE_LIMIT
    } else {
        v as i64
    }
}

/// Halves a value toward zero.
fn half_of(v: i64) -> (r: i64)
    requires
        -VALUE_LIMIT <= v <= VALUE_LIMIT,
    ensures
        r == halved(v as int),
        -VALUE_LIMIT <= r <= VALUE_LIMIT,
{
    if v < 0 {
        0 - (0 - v) / 2
    } else {
        v / 2
    }
}

/// The character of a decimal digit.
fn digit_glyph(d: u32) -> (c: char)
    requires
        d < 10,
    ensures
        c == digit_char(d as int),
{
    match d {
        0 => '0',
        1 => '1',
        2 => '2',
        3 => '3',
        4 => '4',
        5 => '5',
        6 => '6',
        7 => '7',
        8 => '8',
        _ => '9',
    }
}

} // verus!
