//! An on-screen keyboard view: a 4 by 12 grid of keys in a normal and a
//! shifted layer, a cursor moved by the direction buttons, and a text line
//! built up by activating keys.

use vstd::prelude::*;

use crate::buttons::ButtonSet;
use crate::screen::{DrawCmdV, Screen};
use crate::shape::{Bitmap, Drawable, Line, Text};
use crate::view::{opt_res_view, ResultValue, ResultValueV, UiView, UiViewV, UpdateResult,
    UpdateResultV, ViewResult};

verus! {

/// Number of key rows in each layer.
pub const KEY_ROWS: usize = 4;

/// Number of keys in each row.
pub const KEYS_PER_ROW: usize = 12;

/// Vertical offset of the key grid below the text line.
pub const KEYBOARD_OFFSET: i32 = 15;

/// One key of the keyboard.
#[derive(Clone, Copy)]
pub enum Key {
    /// Types the character.
    Letter(char),
    /// Closes the keyboard, handing the entered text to the parent view.
    Submit,
    /// Closes the keyboard without a result.
    Cancel,
}

/// The normal layer of the keyboard.
pub open spec fn keyboard_normal() -> Seq<Seq<Key>> {
    seq![
        seq![
            Key::Letter('1'),
            Key::Letter('2'),
            Key::Letter('3'),
            Key::Letter('4'),
            Key::Letter('5'),
            Key::Letter('6'),
            Key::Letter('7'),
            Key::Letter('8'),
            Key::Letter('9'),
            Key::Letter('0'),
            Key::Letter('-'),
            Key::Letter('='),
        ],
        seq![
            Key::Letter('q'),
            Key::Letter('w'),
            Key::Letter('e'),
            Key::Letter('r'),
            Key::Letter('t'),
            Key::Letter('y'),
            Key::Letter('u'),
            Key::Letter('i'),
            Key::Letter('o'),
            Key::Letter('p'),
            Key::Letter('['),
            Key::Letter(']'),
        ],
        seq![
            Key::Letter('a'),
            Key::Letter('s'),
            Key::Letter('d'),
            Key::Letter('f'),
            Key::Letter('g'),
            Key::Letter('h'),
            Key::Letter('j'),
            Key::Letter('k'),
            Key::Letter('l'),
            Key::Letter(';'),
            Key::Letter('\''),
            Key::Submit,
        ],
        seq![
            Key::Letter('z'),
            Key::Letter('x'),
            Key::Letter('c'),
            Key::Letter('v'),
            Key::Letter('b'),
            Key::Letter('n'),
            Key::Letter('m'),
            Key::Letter(','),
            Key::Letter('.'),
            Key::Letter('/'),
            Key::Letter('\\'),
            Key::Letter(' '),
        ],
    ]
}

/// The shifted layer of the keyboard.
pub open spec fn keyboard_shift() -> Seq<Seq<Key>> {
    seq![
        seq![
            Key::Letter('!'),
            Key::Letter('@'),
            Key::Letter('#'),
            Key::Letter('$'),
            Key::Letter('%'),
            Key::Letter('^'),
            Key::Letter('&'),
            Key::Letter('*'),
            Key::Letter('('),
            Key::Letter(')'),
            Key::Letter('_'),
            Key::Letter('+'),
        ],
        seq![
            Key::Letter('Q'),
            Key::Letter('W'),
            Key::Letter('E'),
            Key::Letter('R'),
            Key::Letter('T'),
            Key::Letter('Y'),
            Key::Letter('U'),
            Key::Letter('I'),
            Key::Letter('O'),
            Key::Letter('P'),
            Key::Letter('{'),
            Key::Letter('}'),
        ],
        seq![
            Key::Letter('A'),
            Key::Letter('S'),
            Key::Letter('D'),
            Key::Letter('F'),
            Key::Letter('G'),
            Key::Letter('H'),
            Key::Letter('J'),
            Key::Letter('K'),
            Key::Letter('L'),
            Key::Letter(':'),
            Key::Letter('"'),
            Key::Cancel,
        ],
        seq![
            Key::Letter('Z'),
            Key::Letter('X'),
            Key::Letter('C'),
            Key::Letter('V'),
            Key::Letter('B'),
            Key::Letter('N'),
            Key::Letter('M'),
            Key::Letter('<'),
            Key::Letter('>'),
            Key::Letter('?'),
            Key::Letter('|'),
            Key::Letter(' '),
        ],
    ]
}

/// Icon drawn on the submit key.
pub open spec fn submit_icon_seq() -> Seq<u8> {
    seq![0b00000000u8, 0b00000100u8, 0b00001000u8, 0b00010000u8, 0b10100000u8, 0b01000000u8, 0b00000000u8, 0b11111100u8]
}

/// Icon drawn on the cancel key.
pub open spec fn cancel_icon_seq() -> Seq<u8> {
    seq![0b10000100u8, 0b01001000u8, 0b00110000u8, 0b00110000u8, 0b01001000u8, 0b10000100u8, 0b00000000u8, 0b11111100u8]
}

/// Icon drawn on the space key.
pub open spec fn space_icon_seq() -> Seq<u8> {
    seq![0b00000000u8, 0b00000000u8, 0b00000000u8, 0b00000000u8, 0b00000000u8, 0b00000000u8, 0b10000100u8, 0b11111100u8]
}

/// Rows of the submit icon.
fn submit_icon() -> (v: Vec<u8>)
    ensures
        v@ == submit_icon_seq(),
{
    let v: Vec<u8> = vec![0b00000000u8, 0b00000100u8, 0b00001000u8, 0b00010000u8, 0b10100000u8, 0b01000000u8, 0b00000000u8, 0b11111100u8];
    proof {
        assert(v@ =~= submit_icon_seq());
    }
    v
}

/// Rows of the cancel icon.
fn cancel_icon() -> (v: Vec<u8>)
    ensures
        v@ == cancel_icon_seq(),
{
    let v: Vec<u8> = vec![0b10000100u8, 0b01001000u8, 0b00110000u8, 0b00110000u8, 0b01001000u8, 0b10000100u8, 0b00000000u8, 0b11111100u8];
    proof {
        assert(v@ =~= cancel_icon_seq());
    }
    v
}

/// Rows of the space icon.
fn space_icon() -> (v: Vec<u8>)
    ensures
        v@ == space_icon_seq(),
{
    let v: Vec<u8> = vec![0b00000000u8, 0b00000000u8, 0b00000000u8, 0b00000000u8, 0b00000000u8, 0b00000000u8, 0b10000100u8, 0b11111100u8];
    proof {
        assert(v@ =~= space_icon_seq());
    }
    v
}

/// Relies on String::pop: removes and returns the last character, or
/// returns None and leaves the string unchanged when it is empty.
#[verifier::external_body]
fn string_pop(s: &mut String) -> (r: Option<char>)
    ensures
        old(s)@.len() == 0 ==> final(s)@ == old(s)@ && r is None,
        old(s)@.len() > 0 ==> final(s)@ == old(s)@.drop_last() && r == Some(old(s)@.last()),
{
    s.pop()
}

/// Relies on String::push: appends one character at the end.
#[verifier::external_body]
fn string_push(s: &mut String, c: char)
    ensures
        final(s)@ == old(s)@.push(c),
{
    s.push(c)
}

/// Relies on char::to_string: a string holding exactly that character.
#[verifier::external_body]
fn char_to_string(c: char) -> (s: String)
    ensures
        s@ == seq![c],
{
    c.to_string()
}

/// Spawns a fresh keyboard view on demand.
pub struct TextInputSpawner {}

impl TextInputSpawner {
    /// Construct a fresh keyboard view.
    pub fn spawn(&self) -> (v: UiView)
        ensures
            v@ == UiViewV::TextInput(TextInputV::init()),
            v.wf(),
    {
        UiView::TextInput(TextInput::new())
    }
}

/// The keyboard view's state.
pub struct TextInput {
    /// The normal key layer.
    pub normal: Vec<Vec<Key>>,
    /// The shifted key layer.
    pub shift: Vec<Vec<Key>>,
    /// Cursor column.
    pub x: i32,
    /// Cursor row.
    pub y: i32,
    /// Whether the shifted layer is active.
    pub shifting: bool,
    /// The text entered so far.
    pub string: String,
}

/// Mathematical model of the keyboard view.
#[verifier::ext_equal]
pub struct TextInputV {
    pub normal: Seq<Seq<Key>>,
    pub shift: Seq<Seq<Key>>,
    pub x: int,
    pub y: int,
    pub shifting: bool,
    pub text: Seq<char>,
}

/// The models of the rows of a key layer.
pub open spec fn rows_view(v: Seq<Vec<Key>>) -> Seq<Seq<Key>> {
    v.map_values(|r: Vec<Key>| r@)
}

impl View for TextInput {
    type V = TextInputV;

    open spec fn view(&self) -> TextInputV {
        TextInputV {
            normal: rows_view(self.normal@),
            shift: rows_view(self.shift@),
            x: self.x as int,
            y: self.y as int,
            shifting: self.shifting,
            text: self.string@,
        }
    }
}

impl TextInputV {
    /// Both layers are 4 by 12 and the cursor lies on a key.
    pub open spec fn wf(self) -> bool {
        &&& self.normal.len() == KEY_ROWS
        &&& self.shift.len() == KEY_ROWS
        &&& forall|i: int| 0 <= i < KEY_ROWS ==> (#[trigger] self.normal[i]).len() == KEYS_PER_ROW
        &&& forall|i: int| 0 <= i < KEY_ROWS ==> (#[trigger] self.shift[i]).len() == KEYS_PER_ROW
        &&& 0 <= self.y < KEY_ROWS
        &&& 0 <= self.x < KEYS_PER_ROW
    }

    /// A fresh keyboard: standard layers, cursor at the top left, normal
    /// layer active, nothing entered.
    pub open spec fn init() -> TextInputV {
        TextInputV {
            normal: keyboard_normal(),
            shift: keyboard_shift(),
            x: 0,
            y: 0,
            shifting: false,
            text: Seq::<char>::empty(),
        }
    }

    /// The active key layer.
    pub open spec fn rows(self) -> Seq<Seq<Key>> {
        if self.shifting {
            self.shift
        } else {
            self.normal
        }
    }
}

/// Well-formedness does not depend on the entered text or the active
/// layer: it carries over to any state with the same layers and an
/// in-range cursor.
pub proof fn lemma_wf_same_layers(a: TextInputV, b: TextInputV)
    requires
        a.wf(),
        b.normal == a.normal,
        b.shift == a.shift,
        0 <= b.x < KEYS_PER_ROW,
        0 <= b.y < KEY_ROWS,
    ensures
        b.wf(),
{
    assert forall|i: int| 0 <= i < KEY_ROWS implies (#[trigger] b.normal[i]).len()
        == KEYS_PER_ROW by {
        assert(a.normal[i].len() == KEYS_PER_ROW);
    }
    assert forall|i: int| 0 <= i < KEY_ROWS implies (#[trigger] b.shift[i]).len()
        == KEYS_PER_ROW by {
        assert(a.shift[i].len() == KEYS_PER_ROW);
    }
}

/// The cursor position after this frame's direction presses, wrapping at
/// the grid edges. Column wrap uses the row the cursor has moved to.
pub open spec fn ti_sel_after(t: TextInputV, up: bool, down: bool, left: bool, right: bool) -> (
    int,
    int,
) {
    let rows = t.rows();
    let y1 = if up {
        if t.y - 1 < 0 {
            rows.len() - 1
        } else {
            t.y - 1
        }
    } else {
        t.y
    };
    let y2 = if down {
        (y1 + 1) % (rows.len() as int)
    } else {
        y1
    };
    let cols = rows[y2].len() as int;
    let x1 = if left {
        if t.x - 1 < 0 {
            cols - 1
        } else {
            t.x - 1
        }
    } else {
        t.x
    };
    let x2 = if right {
        (x1 + 1) % cols
    } else {
        x1
    };
    (x2, y2)
}

/// The cursor position after the presses recorded in the panel.
pub open spec fn ti_sel_after_bs(t: TextInputV, bs: ButtonSet) -> (int, int) {
    ti_sel_after(
        t,
        bs.up.has_been_pressed,
        bs.down.has_been_pressed,
        bs.left.has_been_pressed,
        bs.right.has_been_pressed,
    )
}

/// The entered text after this frame's backspace press, if any.
pub open spec fn ti_text_after_backspace(t: TextInputV, bs: ButtonSet) -> Seq<char> {
    if bs.b.has_been_pressed {
        if t.text.len() > 0 {
            t.text.drop_last()
        } else {
            t.text
        }
    } else {
        t.text
    }
}

/// The key under the cursor after this frame's direction presses, in the
/// layer that was active when the frame began.
pub open spec fn ti_key(t: TextInputV, bs: ButtonSet) -> Key {
    let sel = ti_sel_after_bs(t, bs);
    t.rows()[sel.1][sel.0]
}

/// The keyboard state after one update.
pub open spec fn ti_after(t: TextInputV, bs: ButtonSet) -> TextInputV {
    let txt = ti_text_after_backspace(t, bs);
    let sel = ti_sel_after_bs(t, bs);
    let sh = if bs.c.has_been_pressed {
        !t.shifting
    } else {
        t.shifting
    };
    let txt2 = match ti_key(t, bs) {
        Key::Letter(c) => if bs.a.has_been_pressed {
            txt.push(c)
        } else {
            txt
        },
        Key::Submit => txt,
        Key::Cancel => txt,
    };
    TextInputV { x: sel.0, y: sel.1, shifting: sh, text: txt2, normal: t.normal, shift: t.shift }
}

/// The keyboard's navigation decision for one update: closing on submit
/// (with the entered text) or cancel, staying otherwise.
pub open spec fn ti_decision(t: TextInputV, bs: ButtonSet) -> Option<UpdateResultV> {
    if bs.a.has_been_pressed {
        match ti_key(t, bs) {
            Key::Submit => Some(
                UpdateResultV::Back(Some(ResultValueV::Text(ti_text_after_backspace(t, bs)))),
            ),
            Key::Cancel => Some(UpdateResultV::Back(None)),
            Key::Letter(c) => None,
        }
    } else {
        None
    }
}

/// The panel after a keyboard update: every activation consumed.
pub open spec fn ti_buttons_after(bs: ButtonSet) -> ButtonSet {
    bs.cleared()
}

impl TextInput {
    /// Well-formedness of the keyboard state.
    pub open spec fn wf(self) -> bool {
        self@.wf()
    }

    /// Build a fresh keyboard view with the standard layers.
    pub fn new() -> (r: TextInput)
        ensures
            r@ == TextInputV::init(),
            r.wf(),
    {
        let normal: Vec<Vec<Key>> = vec![
            vec![
                Key::Letter('1'),
                Key::Letter('2'),
                Key::Letter('3'),
                Key::Letter('4'),
                Key::Letter('5'),
                Key::Letter('6'),
                Key::Letter('7'),
                Key::Letter('8'),
                Key::Letter('9'),
                Key::Letter('0'),
                Key::Letter('-'),
                Key::Letter('='),
            ],
            vec![
                Key::Letter('q'),
                Key::Letter('w'),
                Key::Letter('e'),
                Key::Letter('r'),
                Key::Letter('t'),
                Key::Letter('y'),
                Key::Letter('u'),
                Key::Letter('i'),
                Key::Letter('o'),
                Key::Letter('p'),
                Key::Letter('['),
                Key::Letter(']'),
            ],
            vec![
                Key::Letter('a'),
                Key::Letter('s'),
                Key::Letter('d'),
                Key::Letter('f'),
                Key::Letter('g'),
                Key::Letter('h'),
                Key::Letter('j'),
                Key::Letter('k'),
                Key::Letter('l'),
                Key::Letter(';'),
                Key::Letter('\''),
                Key::Submit,
            ],
            vec![
                Key::Letter('z'),
                Key::Letter('x'),
                Key::Letter('c'),
                Key::Letter('v'),
                Key::Letter('b'),
                Key::Letter('n'),
                Key::Letter('m'),
                Key::Letter(','),
                Key::Letter('.'),
                Key::Letter('/'),
                Key::Letter('\\'),
                Key::Letter(' '),
            ],
        ];
        let shift: Vec<Vec<Key>> = vec![
            vec![
                Key::Letter('!'),
                Key::Letter('@'),
                Key::Letter('#'),
                Key::Letter('$'),
                Key::Letter('%'),
                Key::Letter('^'),
                Key::Letter('&'),
                Key::Letter('*'),
                Key::Letter('('),
                Key::Letter(')'),
                Key::Letter('_'),
                Key::Letter('+'),
            ],
            vec![
                Key::Letter('Q'),
                Key::Letter('W'),
                Key::Letter('E'),
                Key::Letter('R'),
                Key::Letter('T'),
                Key::Letter('Y'),
                Key::Letter('U'),
                Key::Letter('I'),
                Key::Letter('O'),
                Key::Letter('P'),
                Key::Letter('{'),
                Key::Letter('}'),
            ],
            vec![
                Key::Letter('A'),
                Key::Letter('S'),
                Key::Letter('D'),
                Key::Letter('F'),
                Key::Letter('G'),
                Key::Letter('H'),
                Key::Letter('J'),
                Key::Letter('K'),
                Key::Letter('L'),
                Key::Letter(':'),
                Key::Letter('"'),
                Key::Cancel,
            ],
            vec![
                Key::Letter('Z'),
                Key::Letter('X'),
                Key::Letter('C'),
                Key::Letter('V'),
                Key::Letter('B'),
                Key::Letter('N'),
                Key::Letter('M'),
                Key::Letter('<'),
                Key::Letter('>'),
                Key::Letter('?'),
                Key::Letter('|'),
                Key::Letter(' '),
            ],
        ];
        let r = TextInput { normal, shift, x: 0, y: 0, shifting: false, string: String::new() };
        proof {
            assert(r@.normal =~~= keyboard_normal());
            assert(r@.shift =~~= keyboard_shift());
            assert(r@ =~~= TextInputV::init());
        }
        r
    }

    /// A spawner producing fresh keyboard views.
    pub fn spawner() -> (s: TextInputSpawner)
        ensures
            s == (TextInputSpawner {  }),
    {
        TextInputSpawner {  }
    }

    /// Move the cursor by this frame's direction presses, wrapping at the
    /// grid edges.
    fn move_cursor(&mut self, up: bool, down: bool, left: bool, right: bool)
        requires
            old(self).wf(),
        ensures
            final(self)@ == (TextInputV {
                x: ti_sel_after(old(self)@, up, down, left, right).0,
                y: ti_sel_after(old(self)@, up, down, left, right).1,
                ..old(self)@
            }),
            final(self).wf(),
    {
        let rows_len: usize = if self.shifting {
            self.shift.len()
        } else {
            self.normal.len()
        };
        proof {
            assert(rows_len == KEY_ROWS);
        }
        if up {
            self.y = self.y - 1;
            if self.y < 0 {
                self.y = (rows_len as i32) - 1;
            }
        }
        if down {
            self.y = self.y + 1;
            self.y = self.y % (rows_len as i32);
        }
        proof {
            assert(0 <= self.y < KEY_ROWS);
            assert(self@.shift[self.y as int] == self.shift@[self.y as int]@);
            assert(self@.normal[self.y as int] == self.normal@[self.y as int]@);
        }
        let cols_len: usize = if self.shifting {
            self.shift[self.y as usize].len()
        } else {
            self.normal[self.y as usize].len()
        };
        proof {
            assert(cols_len == KEYS_PER_ROW);
        }
        if left {
            self.x = self.x - 1;
            if self.x < 0 {
                self.x = (cols_len as i32) - 1;
            }
        }
        if right {
            self.x = self.x + 1;
            self.x = self.x % (cols_len as i32);
        }
        proof {
            assert(0 <= self.x < KEYS_PER_ROW as int);
            assert(0 <= self.y < KEY_ROWS as int);
            assert(self@.normal == old(self)@.normal);
            assert(self@.shift == old(self)@.shift);
            assert(self@ =~~= (TextInputV {
                x: ti_sel_after(old(self)@, up, down, left, right).0,
                y: ti_sel_after(old(self)@, up, down, left, right).1,
                ..old(self)@
            }));
            lemma_wf_same_layers(old(self)@, self@);
        }
    }

    /// Consume one frame's input: backspace on b, layer toggle on c, cursor
    /// moves with wrap-around on the direction buttons, and key activation
    /// on a, which types a character or closes the keyboard.
    #[verifier::rlimit(100)]
    pub fn update(&mut self, buttons: &mut ButtonSet) -> (r: Option<UpdateResult>)
        requires
            old(self).wf(),
        ensures
            final(self)@ == ti_after(old(self)@, *old(buttons)),
            opt_res_view(r) == ti_decision(old(self)@, *old(buttons)),
            *final(buttons) == ti_buttons_after(*old(buttons)),
            final(self).wf(),
    {
        let bflag = buttons.b.was_pressed();
        let cflag = buttons.c.was_pressed();
        let upf = buttons.up.was_pressed();
        let dnf = buttons.down.was_pressed();
        let lff = buttons.left.was_pressed();
        let rtf = buttons.right.was_pressed();
        let aflag = buttons.a.was_pressed();
        proof {
            assert(*buttons == ti_buttons_after(*old(buttons)));
        }
        if bflag {
            string_pop(&mut self.string);
        }
        proof {
            assert(self.string@ == ti_text_after_backspace(old(self)@, *old(buttons)));
            assert(self@.normal == old(self)@.normal);
            assert(self@.shift == old(self)@.shift);
            lemma_wf_same_layers(old(self)@, self@);
        }
        self.move_cursor(upf, dnf, lff, rtf);
        let r: Option<UpdateResult> = if aflag {
            proof {
                assert(0 <= self.y < KEY_ROWS);
                assert(0 <= self.x < KEYS_PER_ROW);
                assert(self@.shift[self.y as int] == self.shift@[self.y as int]@);
                assert(self@.normal[self.y as int] == self.normal@[self.y as int]@);
            }
            let key = if self.shifting {
                self.shift[self.y as usize][self.x as usize]
            } else {
                self.normal[self.y as usize][self.x as usize]
            };
            proof {
                assert(key == ti_key(old(self)@, *old(buttons)));
            }
            match key {
                Key::Submit => {
                    let tr = TextResult { text: self.string.clone() };
                    Some(UpdateResult::Back(Some(tr.get())))
                },
                Key::Cancel => Some(UpdateResult::Back(None)),
                Key::Letter(letter) => {
                    string_push(&mut self.string, letter);
                    None
                },
            }
        } else {
            None
        };
        if cflag {
            self.shifting = !self.shifting;
        }
        proof {
            assert(self@ == ti_after(old(self)@, *old(buttons)));
            assert(opt_res_view(r) == ti_decision(old(self)@, *old(buttons)));
            lemma_wf_same_layers(old(self)@, self@);
        }
        r
    }

    /// Accept a result handed back by a closing child view; the keyboard
    /// ignores it.
    pub fn result(&mut self, _result: ResultValue)
        ensures
            *final(self) == *old(self),
    {
    }
}

/// The text entered into a keyboard view, handed to the parent on submit.
pub struct TextResult {
    /// The entered text.
    pub text: String,
}

impl ViewResult for TextResult {
    open spec fn payload(&self) -> ResultValueV {
        ResultValueV::Text(self.text@)
    }

    fn get(&self) -> (r: ResultValue) {
        ResultValue::Text(self.text.clone())
    }
}

/// A sequence of icon rows, pixel-flipped when `invert` is set.
pub open spec fn maybe_inverted(bits: Seq<u8>, invert: bool) -> Seq<u8> {
    if invert {
        bits.map_values(|b: u8| !b)
    } else {
        bits
    }
}

/// The two commands one key cell paints: its cell rectangle, then its icon
/// or character.
pub open spec fn ti_cell_cmds(t: TextInputV, x: int, y: int) -> Seq<DrawCmdV> {
    let sel = x == t.x && y == t.y;
    let sel01 = if sel {
        1u8
    } else {
        0u8
    };
    let rect = DrawCmdV::Rect {
        x0: 10 * x,
        y0: KEYBOARD_OFFSET + 12 * y,
        x1: 10 * x + 10,
        y1: KEYBOARD_OFFSET + 12 * y + 12,
        stroke: Some(1u8),
        fill: Some(sel01),
    };
    let second = match t.rows()[y][x] {
        Key::Submit => DrawCmdV::Image {
            x: 10 * x + 2,
            y: KEYBOARD_OFFSET + 12 * y + 2,
            width: 6,
            height: 8,
            bits: maybe_inverted(submit_icon_seq(), sel),
        },
        Key::Cancel => DrawCmdV::Image {
            x: 10 * x + 2,
            y: KEYBOARD_OFFSET + 12 * y + 2,
            width: 6,
            height: 8,
            bits: maybe_inverted(cancel_icon_seq(), sel),
        },
        Key::Letter(c) => if c == ' ' {
            DrawCmdV::Image {
                x: 10 * x + 2,
                y: KEYBOARD_OFFSET + 12 * y + 2,
                width: 6,
                height: 8,
                bits: maybe_inverted(space_icon_seq(), sel),
            }
        } else {
            DrawCmdV::Text {
                x: 10 * x + 3,
                y: KEYBOARD_OFFSET + 12 * y + 3,
                text: seq![c],
                stroke: Some(
                    if sel {
                        0u8
                    } else {
                        1u8
                    },
                ),
                fill: Some(sel01),
            }
        },
    };
    seq![rect, second]
}

/// The commands of the first `nx` cells of row `y`.
pub open spec fn ti_row_cmds(t: TextInputV, y: int, nx: int) -> Seq<DrawCmdV>
    decreases nx,
{
    if nx <= 0 {
        Seq::<DrawCmdV>::empty()
    } else {
        ti_row_cmds(t, y, nx - 1) + ti_cell_cmds(t, nx - 1, y)
    }
}

/// The commands of the first `ny` rows of the key grid.
pub open spec fn ti_rows_cmds(t: TextInputV, ny: int) -> Seq<DrawCmdV>
    decreases ny,
{
    if ny <= 0 {
        Seq::<DrawCmdV>::empty()
    } else {
        ti_rows_cmds(t, ny - 1) + ti_row_cmds(t, ny - 1, KEYS_PER_ROW as int)
    }
}

impl TextInputV {
    /// Everything the keyboard paints: the key grid, a separator line, and
    /// the entered text.
    pub open spec fn render_cmds(self, width: i32, height: i32) -> Seq<DrawCmdV> {
        ti_rows_cmds(self, KEY_ROWS as int) + seq![
            DrawCmdV::Line { x0: 2, y0: 11, x1: 2 + (width - 4), y1: 11, stroke: Some(1u8) },
            DrawCmdV::Text { x: 2, y: 2, text: self.text, stroke: Some(1u8), fill: None },
        ]
    }
}

impl TextInput {
    /// Render the keyboard into the display list.
    #[verifier::rlimit(100)]
    pub fn render(&self, screen: &mut Screen)
        requires
            self.wf(),
            0 <= old(screen).width <= 16384,
            0 <= old(screen).height <= 16384,
        ensures
            final(screen).width == old(screen).width,
            final(screen).height == old(screen).height,
            final(screen)@.cmds == old(screen)@.cmds + self@.render_cmds(
                old(screen).width,
                old(screen).height,
            ),
    {
        let ghost orig = screen@.cmds;
        let ghost ow = screen.width;
        let ghost oh = screen.height;
        let mut yy: usize = 0;
        while yy < KEY_ROWS
            invariant
                self.wf(),
                yy <= KEY_ROWS,
                screen.width == ow,
                screen.height == oh,
                screen@.cmds == orig + ti_rows_cmds(self@, yy as int),
            decreases KEY_ROWS - yy,
        {
            let mut xx: usize = 0;
            while xx < KEYS_PER_ROW
                invariant
                    self.wf(),
                    yy < KEY_ROWS,
                    xx <= KEYS_PER_ROW,
                    screen.width == ow,
                    screen.height == oh,
                    screen@.cmds == orig + ti_rows_cmds(self@, yy as int) + ti_row_cmds(
                        self@,
                        yy as int,
                        xx as int,
                    ),
                decreases KEYS_PER_ROW - xx,
            {
                let sel = (xx as i32) == self.x && (yy as i32) == self.y;
                let sel01: u8 = if sel {
                    1
                } else {
                    0
                };
                let cell = crate::shape::Rect::new(10, 12).at(
                    10 * (xx as i32),
                    KEYBOARD_OFFSET + 12 * (yy as i32),
                ).fill(Some(sel01)).stroke(Some(1));
                cell.draw(screen);
                proof {
                    assert(self@.shift[yy as int] == self.shift@[yy as int]@);
                    assert(self@.normal[yy as int] == self.normal@[yy as int]@);
                    assert(self.shift@[yy as int]@.len() == KEYS_PER_ROW);
                    assert(self.normal@[yy as int]@.len() == KEYS_PER_ROW);
                }
                let key = if self.shifting {
                    self.shift[yy][xx]
                } else {
                    self.normal[yy][xx]
                };
                match key {
                    Key::Submit => {
                        let icon = submit_icon();
                        Bitmap::new(icon.as_slice(), 6, 8).at(
                            10 * (xx as i32) + 2,
                            KEYBOARD_OFFSET + 12 * (yy as i32) + 2,
                        ).invert(sel).draw(screen);
                    },
                    Key::Cancel => {
                        let icon = cancel_icon();
                        Bitmap::new(icon.as_slice(), 6, 8).at(
                            10 * (xx as i32) + 2,
                            KEYBOARD_OFFSET + 12 * (yy as i32) + 2,
                        ).invert(sel).draw(screen);
                    },
                    Key::Letter(letter) => {
                        if letter == ' ' {
                            let icon = space_icon();
                            Bitmap::new(icon.as_slice(), 6, 8).at(
                                10 * (xx as i32) + 2,
                                KEYBOARD_OFFSET + 12 * (yy as i32) + 2,
                            ).invert(sel).draw(screen);
                        } else {
                            Text::new(char_to_string(letter)).at(
                                10 * (xx as i32) + 3,
                                KEYBOARD_OFFSET + 12 * (yy as i32) + 3,
                            ).stroke(
                                Some(
                                    if sel {
                                        0
                                    } else {
                                        1
                                    },
                                ),
                            ).fill(Some(sel01)).draw(screen);
                        }
                    },
                }
                proof {
                    assert(screen@.cmds =~= orig + ti_rows_cmds(self@, yy as int) + ti_row_cmds(
                        self@,
                        yy as int,
                        xx as int + 1,
                    ));
                }
                xx = xx + 1;
            }
            proof {
                assert(screen@.cmds =~= orig + ti_rows_cmds(self@, yy as int + 1));
            }
            yy = yy + 1;
        }
        Line::new(screen.get_width() - 4, 0).at(2, 11).draw(screen);
        Text::new(self.string.clone()).at(2, 2).draw(screen);
        proof {
            assert(screen@.cmds =~= orig + self@.render_cmds(ow, oh));
        }
    }
}

} // verus!
