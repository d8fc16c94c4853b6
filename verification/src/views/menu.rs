//! A scrolling menu view: labelled entries that either enter a child view
//! through a spawner, or name an outside action for the surrounding program
//! to perform.

use vstd::prelude::*;

use crate::buttons::ButtonSet;
use crate::screen::{DrawCmdV, Screen};
use crate::shape::{Bitmap, Drawable, Line, Rect, Text};
use crate::view::{opt_res_view, ResultValue, UiView, UiViewV, UpdateResult, UpdateResultV,
    ViewSpawner};

verus! {

/// Height of one menu entry in pixels.
pub const ENTRY_HEIGHT: i32 = 13;

/// Icon marking that entries are hidden above the window.
pub open spec fn arrow_up_seq() -> Seq<u8> {
    seq![0b00000000u8, 0b00100000u8, 0b01110000u8, 0b10101000u8, 0b00100000u8, 0b00100000u8, 0b00100000u8, 0b00000000u8]
}

/// Icon marking that entries are hidden below the window.
pub open spec fn arrow_down_seq() -> Seq<u8> {
    seq![0b00000000u8, 0b00100000u8, 0b00100000u8, 0b00100000u8, 0b10101000u8, 0b01110000u8, 0b00100000u8, 0b00000000u8]
}

/// Rows of the up arrow icon.
fn arrow_up() -> (v: Vec<u8>)
    ensures
        v@ == arrow_up_seq(),
{
    let v: Vec<u8> = vec![0b00000000u8, 0b00100000u8, 0b01110000u8, 0b10101000u8, 0b00100000u8, 0b00100000u8, 0b00100000u8, 0b00000000u8];
    proof {
        assert(v@ =~= arrow_up_seq());
    }
    v
}

/// Rows of the down arrow icon.
fn arrow_down() -> (v: Vec<u8>)
    ensures
        v@ == arrow_down_seq(),
{
    let v: Vec<u8> = vec![0b00000000u8, 0b00100000u8, 0b00100000u8, 0b00100000u8, 0b10101000u8, 0b01110000u8, 0b00100000u8, 0b00000000u8];
    proof {
        assert(v@ =~= arrow_down_seq());
    }
    v
}

/// One menu entry.
pub enum MenuItem {
    /// A labelled entry that enters the view the spawner produces.
    TextToView(String, ViewSpawner),
    /// A labelled entry that asks the surrounding program to perform the
    /// named outside action.
    TextToFunc(String, u64),
}

/// Mathematical model of a menu entry.
#[verifier::ext_equal]
pub enum MenuItemV {
    TextToView(Seq<char>, crate::view::ViewSpawnerV),
    TextToFunc(Seq<char>, u64),
}

impl View for MenuItem {
    type V = MenuItemV;

    open spec fn view(&self) -> MenuItemV {
        match self {
            MenuItem::TextToView(t, sp) => MenuItemV::TextToView(t@, sp@),
            MenuItem::TextToFunc(t, a) => MenuItemV::TextToFunc(t@, *a),
        }
    }
}

impl MenuItemV {
    /// The entry's data can produce a well-formed view when activated.
    pub open spec fn wf(self) -> bool {
        match self {
            MenuItemV::TextToView(t, sp) => sp.swf(),
            MenuItemV::TextToFunc(t, a) => true,
        }
    }

    /// The entry's label.
    pub open spec fn label(self) -> Seq<char> {
        match self {
            MenuItemV::TextToView(t, sp) => t,
            MenuItemV::TextToFunc(t, a) => t,
        }
    }
}

/// The menu view's state.
pub struct Menu {
    /// The entries, in display order.
    pub entries: Vec<MenuItem>,
    /// The title shown under the entry window; empty for a filler pattern.
    pub title: String,
    /// Index of the selected entry.
    pub selected: usize,
    /// Index of the first entry shown in the four-entry window.
    pub first_shown: usize,
}

/// Mathematical model of the menu view.
#[verifier::ext_equal]
pub struct MenuV {
    pub entries: Seq<MenuItemV>,
    pub title: Seq<char>,
    pub selected: int,
    pub first_shown: int,
}

impl View for Menu {
    type V = MenuV;

    open spec fn view(&self) -> MenuV {
        MenuV {
            entries: self.entries@.map_values(|it: MenuItem| it@),
            title: self.title@,
            selected: self.selected as int,
            first_shown: self.first_shown as int,
        }
    }
}

impl MenuV {
    /// The menu has at least one entry, the selection lies on an entry, the
    /// window starts at or before the selection, and every entry can spawn
    /// a well-formed view.
    pub open spec fn wf(self) -> bool {
        &&& self.entries.len() >= 1
        &&& 0 <= self.selected < self.entries.len()
        &&& 0 <= self.first_shown <= self.selected
        &&& forall|i: int| 0 <= i < self.entries.len() ==> (#[trigger] self.entries[i]).wf()
    }
}

/// The menu after this frame's direction presses have moved the selection:
/// down and up move with wrap-around, left jumps to the first entry, right
/// to the last.
pub open spec fn menu_nav(m: MenuV, down: bool, up: bool, left: bool, right: bool) -> MenuV {
    let len = m.entries.len() as int;
    let s1 = if down {
        if m.selected == len - 1 {
            0
        } else {
            m.selected + 1
        }
    } else {
        m.selected
    };
    let s2 = if up {
        if s1 == 0 {
            len - 1
        } else {
            s1 - 1
        }
    } else {
        s1
    };
    let s3 = if left {
        0
    } else {
        s2
    };
    let s4 = if right {
        len - 1
    } else {
        s3
    };
    MenuV { selected: s4, ..m }
}

/// The menu after the window start has followed the selection, so that the
/// selection stays inside the four-entry window.
pub open spec fn menu_scroll(m: MenuV) -> MenuV {
    let len = m.entries.len() as int;
    let s = m.selected;
    let fs = if s == len - 1 {
        if s >= 3 {
            s - 3
        } else {
            0
        }
    } else if s == 0 {
        0
    } else if s >= m.first_shown + 2 {
        s - 2
    } else if s <= m.first_shown {
        s - 1
    } else {
        m.first_shown
    };
    MenuV { first_shown: fs, ..m }
}

/// The selected index after this frame's direction presses.
pub open spec fn menu_selected_after(m: MenuV, bs: ButtonSet) -> int {
    menu_nav(
        m,
        bs.down.has_been_pressed,
        bs.up.has_been_pressed,
        bs.left.has_been_pressed,
        bs.right.has_been_pressed,
    ).selected
}

/// The menu state after one update.
pub open spec fn menu_after(m: MenuV, bs: ButtonSet) -> MenuV {
    menu_scroll(
        menu_nav(
            m,
            bs.down.has_been_pressed,
            bs.up.has_been_pressed,
            bs.left.has_been_pressed,
            bs.right.has_been_pressed,
        ),
    )
}

/// The menu's navigation decision for one update: entering the spawned
/// view when an entry holding a spawner is activated, returning to the
/// caller on b, staying otherwise.
pub open spec fn menu_decision(m: MenuV, bs: ButtonSet) -> Option<UpdateResultV> {
    if bs.a.has_been_pressed {
        match m.entries[menu_selected_after(m, bs)] {
            MenuItemV::TextToView(label, sp) => Some(UpdateResultV::NewView(sp.spawn_view())),
            MenuItemV::TextToFunc(label, action) => None,
        }
    } else if bs.b.has_been_pressed {
        Some(UpdateResultV::Back(None))
    } else {
        None
    }
}

/// The outside action the menu asks the caller to perform, when an entry
/// naming one is activated.
pub open spec fn menu_action(m: MenuV, bs: ButtonSet) -> Option<u64> {
    if bs.a.has_been_pressed {
        match m.entries[menu_selected_after(m, bs)] {
            MenuItemV::TextToView(label, sp) => None,
            MenuItemV::TextToFunc(label, action) => Some(action),
        }
    } else {
        None
    }
}

/// The panel after a menu update: the direction buttons and a are always
/// consumed; b only when a carried no activation; c is untouched.
pub open spec fn menu_buttons_after(bs: ButtonSet) -> ButtonSet {
    ButtonSet {
        a: bs.a.consumed(),
        b: if bs.a.has_been_pressed {
            bs.b
        } else {
            bs.b.consumed()
        },
        c: bs.c,
        up: bs.up.consumed(),
        down: bs.down.consumed(),
        left: bs.left.consumed(),
        right: bs.right.consumed(),
    }
}

/// Spawns, on demand, a menu whose entries all name outside actions.
pub struct MenuSpawner {
    /// The menu title.
    pub title: String,
    /// Label and action identifier of each entry.
    pub entries: Vec<(String, u64)>,
}

/// Mathematical model of a menu spawner.
#[verifier::ext_equal]
pub struct MenuSpawnerV {
    pub title: Seq<char>,
    pub entries: Seq<(Seq<char>, u64)>,
}

impl View for MenuSpawner {
    type V = MenuSpawnerV;

    open spec fn view(&self) -> MenuSpawnerV {
        MenuSpawnerV {
            title: self.title@,
            entries: self.entries@.map_values(|e: (String, u64)| (e.0@, e.1)),
        }
    }
}

impl MenuSpawnerV {
    /// The spawned menu must have at least one entry.
    pub open spec fn swf(self) -> bool {
        self.entries.len() >= 1
    }

    /// The menu this spawner produces.
    pub open spec fn menu(self) -> MenuV {
        MenuV {
            entries: self.entries.map_values(|e: (Seq<char>, u64)| MenuItemV::TextToFunc(e.0, e.1)),
            title: self.title,
            selected: 0,
            first_shown: 0,
        }
    }
}

impl MenuSpawner {
    /// Construct the menu from the stored labels and action identifiers.
    pub fn spawn(&self) -> (v: UiView)
        requires
            self@.swf(),
        ensures
            v@ == UiViewV::Menu(self@.menu()),
            v.wf(),
    {
        let mut m = Menu::new().title(self.title.clone());
        let mut i: usize = 0;
        while i < self.entries.len()
            invariant
                i <= self.entries@.len(),
                m@.title == self@.title,
                m@.selected == 0,
                m@.first_shown == 0,
                m@.entries == self@.menu().entries.take(i as int),
            decreases self.entries@.len() - i,
        {
            let pair = &self.entries[i];
            m.add_entry(MenuItem::TextToFunc(pair.0.clone(), pair.1));
            i = i + 1;
            proof {
                assert(m@.entries =~= self@.menu().entries.take(i as int));
            }
        }
        let v = UiView::Menu(m);
        proof {
            assert(m@.entries =~= self@.menu().entries);
            assert(v@ =~~= UiViewV::Menu(self@.menu()));
        }
        v
    }
}

impl Menu {
    /// Well-formedness of the menu state.
    pub open spec fn wf(self) -> bool {
        self@.wf()
    }

    /// An empty, untitled menu. Entries must be added before the menu is
    /// updated or rendered.
    pub fn new() -> (r: Menu)
        ensures
            r@ == (MenuV {
                entries: Seq::<MenuItemV>::empty(),
                title: Seq::<char>::empty(),
                selected: 0,
                first_shown: 0,
            }),
    {
        let r = Menu { entries: Vec::new(), title: String::new(), selected: 0, first_shown: 0 };
        proof {
            assert(r@.entries =~= Seq::<MenuItemV>::empty());
            assert(r@ =~~= (MenuV {
                entries: Seq::<MenuItemV>::empty(),
                title: Seq::<char>::empty(),
                selected: 0,
                first_shown: 0,
            }));
        }
        r
    }

    /// Set the title, as a builder step.
    pub fn title(self, title: String) -> (r: Menu)
        ensures
            r@ == (MenuV { title: title@, ..self@ }),
    {
        let r = Menu { title, ..self };
        proof {
            assert(r@ =~~= (MenuV { title: title@, ..self@ }));
        }
        r
    }

    /// Append an entry.
    pub fn add_entry(&mut self, item: MenuItem)
        ensures
            final(self)@ == (MenuV {
                entries: old(self)@.entries.push(item@),
                ..old(self)@
            }),
    {
        let ghost it = item@;
        self.entries.push(item);
        proof {
            assert(self@.entries =~= old(self)@.entries.push(it));
            assert(self@ =~~= (MenuV { entries: old(self)@.entries.push(it), ..old(self)@ }));
        }
    }

    /// Move the selection by this frame's direction presses.
    fn move_selection(&mut self, down: bool, up: bool, left: bool, right: bool)
        requires
            old(self).wf(),
        ensures
            final(self)@ == menu_nav(old(self)@, down, up, left, right),
            final(self)@.entries.len() >= 1,
            0 <= final(self)@.selected < final(self)@.entries.len(),
            0 <= final(self)@.first_shown,
            final(self).entries@ == old(self).entries@,
    {
        if down {
            if self.selected == self.entries.len() - 1 {
                self.selected = 0;
            } else {
                self.selected = self.selected + 1;
            }
        }
        if up {
            if self.selected == 0 {
                self.selected = self.entries.len() - 1;
            } else {
                self.selected = self.selected - 1;
            }
        }
        if left {
            self.selected = 0;
        }
        if right {
            self.selected = self.entries.len() - 1;
        }
        proof {
            assert(self@ =~~= menu_nav(old(self)@, down, up, left, right));
        }
    }

    /// Let the four-entry window follow the selection.
    fn scroll_window(&mut self)
        requires
            old(self)@.entries.len() >= 1,
            0 <= old(self)@.selected < old(self)@.entries.len(),
            0 <= old(self)@.first_shown,
        ensures
            final(self)@ == menu_scroll(old(self)@),
            final(self)@.entries.len() >= 1,
            0 <= final(self)@.selected < final(self)@.entries.len(),
            0 <= final(self)@.first_shown <= final(self)@.selected,
            final(self).entries@ == old(self).entries@,
    {
        if self.selected == self.entries.len() - 1 {
            self.first_shown = if self.selected >= 3 {
                self.selected - 3
            } else {
                0
            };
        } else if self.selected == 0 {
            self.first_shown = 0;
        } else if self.selected >= 2 && self.first_shown <= self.selected - 2 {
            self.first_shown = self.selected - 2;
        } else if self.selected <= self.first_shown {
            self.first_shown = self.selected - 1;
        }
        proof {
            assert(self@ =~~= menu_scroll(old(self)@));
        }
    }

    /// Consume one frame's input: move the selection with wrap-around, let
    /// the window follow it, and on activation either enter the spawned
    /// child view, name the entry's outside action, or return to the
    /// caller.
    #[verifier::rlimit(100)]
    pub fn update(&mut self, buttons: &mut ButtonSet) -> (r: (Option<UpdateResult>, Option<u64>))
        requires
            old(self).wf(),
        ensures
            final(self)@ == menu_after(old(self)@, *old(buttons)),
            opt_res_view(r.0) == menu_decision(old(self)@, *old(buttons)),
            r.1 == menu_action(old(self)@, *old(buttons)),
            *final(buttons) == menu_buttons_after(*old(buttons)),
            final(self).wf(),
            r.0 matches Some(UpdateResult::NewView(v)) ==> v.wf(),
    {
        let dnf = buttons.down.was_pressed();
        let upf = buttons.up.was_pressed();
        let lff = buttons.left.was_pressed();
        let rtf = buttons.right.was_pressed();
        self.move_selection(dnf, upf, lff, rtf);
        self.scroll_window();
        proof {
            assert(self@ == menu_after(old(self)@, *old(buttons)));
            assert(self.selected as int == menu_selected_after(old(self)@, *old(buttons)));
            assert(self@.wf());
        }
        if buttons.a.was_pressed() {
            proof {
                assert(*buttons == menu_buttons_after(*old(buttons)));
            }
            match &self.entries[self.selected] {
                MenuItem::TextToView(_label, spawner) => {
                    proof {
                        assert(self@.entries[self.selected as int].wf());
                    }
                    (Some(UpdateResult::NewView(spawner.spawn())), None)
                },
                MenuItem::TextToFunc(_label, action) => (None, Some(*action)),
            }
        } else if buttons.b.was_pressed() {
            (Some(UpdateResult::Back(None)), None)
        } else {
            (None, None)
        }
    }

    /// Accept a result handed back by a closing child view; the menu
    /// ignores it.
    pub fn result(&mut self, _result: ResultValue)
        ensures
            *final(self) == *old(self),
    {
    }
}

/// Number of entries shown in the menu window.
pub open spec fn menu_window_count(m: MenuV) -> int {
    if m.entries.len() - m.first_shown < 4 {
        m.entries.len() - m.first_shown
    } else {
        4
    }
}

/// The two commands one visible entry paints: its background rectangle and
/// its label.
pub open spec fn menu_entry_cmds(m: MenuV, i: int, width: i32) -> Seq<DrawCmdV> {
    let sel = m.first_shown + i == m.selected;
    let sel01 = if sel {
        1u8
    } else {
        0u8
    };
    seq![
        DrawCmdV::Rect {
            x0: 0,
            y0: i * (ENTRY_HEIGHT as int),
            x1: width - 1,
            y1: i * (ENTRY_HEIGHT as int) + ENTRY_HEIGHT as int,
            stroke: Some(1u8),
            fill: Some(sel01),
        },
        DrawCmdV::Text {
            x: 3,
            y: i * (ENTRY_HEIGHT as int) + 3,
            text: m.entries[m.first_shown + i].label(),
            stroke: Some(
                if sel {
                    0u8
                } else {
                    1u8
                },
            ),
            fill: Some(sel01),
        },
    ]
}

/// The commands of the first `n` visible entries.
pub open spec fn menu_entries_cmds(m: MenuV, n: int, width: i32) -> Seq<DrawCmdV>
    decreases n,
{
    if n <= 0 {
        Seq::<DrawCmdV>::empty()
    } else {
        menu_entries_cmds(m, n - 1, width) + menu_entry_cmds(m, n - 1, width)
    }
}

/// One line of the filler pattern drawn when the menu has no title.
pub open spec fn menu_filler_cell(i: int, j: int) -> DrawCmdV {
    DrawCmdV::Line {
        x0: i * 9 + j - 4,
        y0: 53int,
        x1: i * 9 + j - 4 + 9,
        y1: 62int,
        stroke: Some(1u8),
    }
}

/// The first `nj` filler lines of column group `i`.
pub open spec fn menu_filler_row(i: int, nj: int) -> Seq<DrawCmdV>
    decreases nj,
{
    if nj <= 0 {
        Seq::<DrawCmdV>::empty()
    } else {
        menu_filler_row(i, nj - 1).push(menu_filler_cell(i, nj - 1))
    }
}

/// The first `ni` column groups of the filler pattern.
pub open spec fn menu_filler(ni: int) -> Seq<DrawCmdV>
    decreases ni,
{
    if ni <= 0 {
        Seq::<DrawCmdV>::empty()
    } else {
        menu_filler(ni - 1) + menu_filler_row(ni - 1, 4)
    }
}

/// The commands of the title area: the title text, or the filler pattern
/// when the title is empty.
pub open spec fn menu_title_cmds(m: MenuV) -> Seq<DrawCmdV> {
    if m.title.len() > 0 {
        seq![
            DrawCmdV::Text { x: 3, y: 55int, text: m.title, stroke: Some(1u8), fill: None },
        ]
    } else {
        menu_filler(15)
    }
}

/// The commands of the up-arrow marker, drawn when entries are hidden
/// above the window.
pub open spec fn menu_up_arrow_cmds(m: MenuV, width: i32) -> Seq<DrawCmdV> {
    if m.first_shown > 0 && m.entries.len() > 4 {
        seq![
            DrawCmdV::Rect {
                x0: 0,
                y0: 52int,
                x1: 10,
                y1: 63int,
                stroke: Some(1u8),
                fill: Some(0u8),
            },
            DrawCmdV::Image { x: 3, y: 54int, width: 5, height: 8, bits: arrow_up_seq() },
        ]
    } else {
        Seq::<DrawCmdV>::empty()
    }
}

/// The commands of the down-arrow marker, drawn when entries are hidden
/// below the window.
pub open spec fn menu_down_arrow_cmds(m: MenuV, width: i32) -> Seq<DrawCmdV> {
    if m.entries.len() > 4 && m.first_shown < m.entries.len() - 4 {
        seq![
            DrawCmdV::Rect {
                x0: width - 11,
                y0: 52int,
                x1: width - 11 + 10,
                y1: 63int,
                stroke: Some(1u8),
                fill: Some(0u8),
            },
            DrawCmdV::Image {
                x: width - 8,
                y: 54int,
                width: 5,
                height: 8,
                bits: arrow_down_seq(),
            },
        ]
    } else {
        Seq::<DrawCmdV>::empty()
    }
}

impl MenuV {
    /// Everything the menu paints: the visible entries, a separator line,
    /// the title area, the scroll markers, and the boundary rectangle.
    pub open spec fn render_cmds(self, width: i32, height: i32) -> Seq<DrawCmdV> {
        menu_entries_cmds(self, menu_window_count(self), width) + seq![
            DrawCmdV::Line { x0: 0, y0: 52int, x1: width - 1, y1: 52int, stroke: Some(1u8) },
        ] + menu_title_cmds(self) + menu_up_arrow_cmds(self, width) + menu_down_arrow_cmds(
            self,
            width,
        ) + seq![
            DrawCmdV::Rect {
                x0: 0,
                y0: 0,
                x1: width - 1,
                y1: height - 1,
                stroke: Some(1u8),
                fill: None,
            },
        ]
    }
}

impl Menu {
    /// Render the menu into the display list.
    #[verifier::rlimit(100)]
    pub fn render(&self, screen: &mut Screen)
        requires
            self.wf(),
            0 <= old(screen).width <= 16384,
            0 <= old(screen).height <= 16384,
        ensures
            final(screen).width == old(screen).width,
            final(screen).height == old(screen).height,
            final(screen)@.cmds == old(screen)@.cmds + self@.render_cmds(
                old(screen).width,
                old(screen).height,
            ),
    {
        let ghost orig = screen@.cmds;
        let ghost ow = screen.width;
        let ghost oh = screen.height;
        let count: usize = if self.entries.len() - self.first_shown < 4 {
            self.entries.len() - self.first_shown
        } else {
            4
        };
        let mut i: usize = 0;
        while i < count
            invariant
                self.wf(),
                i <= count,
                count as int == menu_window_count(self@),
                screen.width == ow,
                screen.height == oh,
                0 <= ow <= 16384,
                screen@.cmds == orig + menu_entries_cmds(self@, i as int, ow),
            decreases count - i,
        {
            let total = self.entries.len();
            proof {
                assert((self.first_shown as int + i as int) < total as int);
            }
            let idx = self.first_shown + i;
            let is_selected = idx == self.selected;
            let sel01: u8 = if is_selected {
                1
            } else {
                0
            };
            Rect::new(screen.get_width() - 1, ENTRY_HEIGHT).fill(Some(sel01)).at(
                0,
                (i as i32) * ENTRY_HEIGHT,
            ).draw(screen);
            let label: &String = match &self.entries[idx] {
                MenuItem::TextToView(t, _sp) => t,
                MenuItem::TextToFunc(t, _a) => t,
            };
            Text::new(label.clone()).at(3, (i as i32) * ENTRY_HEIGHT + 3).fill(
                Some(sel01),
            ).stroke(
                Some(
                    if is_selected {
                        0
                    } else {
                        1
                    },
                ),
            ).draw(screen);
            i = i + 1;
            proof {
                assert(screen@.cmds =~= orig + menu_entries_cmds(self@, i as int, ow));
            }
        }
        Line::new(screen.get_width() - 1, 0).at(0, 13 * 4).draw(screen);
        let ghost base1 = orig + menu_entries_cmds(self@, menu_window_count(self@), ow) + seq![
            DrawCmdV::Line { x0: 0, y0: 52int, x1: ow - 1, y1: 52int, stroke: Some(1u8) },
        ];
        proof {
            assert(screen@.cmds =~= base1);
        }
        if !self.title.as_str().is_empty() {
            Text::new(self.title.clone()).at(3, 4 * 13 + 3).draw(screen);
        } else {
            let mut fi: i32 = 0;
            while fi < 15
                invariant
                    0 <= fi <= 15,
                    screen.width == ow,
                    screen.height == oh,
                    screen@.cmds == base1 + menu_filler(fi as int),
                decreases 15 - fi,
            {
                let mut fj: i32 = 0;
                while fj < 4
                    invariant
                        0 <= fi < 15,
                        0 <= fj <= 4,
                        screen.width == ow,
                        screen.height == oh,
                        screen@.cmds == base1 + menu_filler(fi as int) + menu_filler_row(
                            fi as int,
                            fj as int,
                        ),
                    decreases 4 - fj,
                {
                    Line::new(9, 9).at(fi * 9 + fj - 4, 13 * 4 + 1).draw(screen);
                    fj = fj + 1;
                    proof {
                        assert(screen@.cmds =~= base1 + menu_filler(fi as int) + menu_filler_row(
                            fi as int,
                            fj as int,
                        ));
                    }
                }
                fi = fi + 1;
                proof {
                    assert(screen@.cmds =~= base1 + menu_filler(fi as int));
                }
            }
        }
        let ghost base2 = base1 + menu_title_cmds(self@);
        proof {
            assert(screen@.cmds =~= base2);
        }
        if self.first_shown > 0 && self.entries.len() > 4 {
            Rect::new(10, 11).fill(Some(0)).at(0, 4 * 13).draw(screen);
            let icon = arrow_up();
            Bitmap::new(icon.as_slice(), 5, 8).at(3, 4 * 13 + 2).draw(screen);
        }
        let ghost base3 = base2 + menu_up_arrow_cmds(self@, ow);
        proof {
            assert(screen@.cmds =~= base3);
        }
        if self.entries.len() > 4 && self.first_shown < self.entries.len() - 4 {
            Rect::new(10, 11).fill(Some(0)).at(screen.get_width() - 11, 4 * 13).draw(screen);
            let icon = arrow_down();
            Bitmap::new(icon.as_slice(), 5, 8).at(screen.get_width() - 8, 4 * 13 + 2).draw(
                screen,
            );
        }
        let ghost base4 = base3 + menu_down_arrow_cmds(self@, ow);
        proof {
            assert(screen@.cmds =~= base4);
        }
        Rect::new(screen.get_width() - 1, screen.get_height() - 1).at(0, 0).draw(screen);
        proof {
            assert(screen@.cmds =~= orig + self@.render_cmds(ow, oh));
        }
    }
}

} // verus!
