use tinygui::buttons::{ButtonLevels, ButtonSet};
use tinygui::renderer::Renderer;
use tinygui::view::{ResultValue, UiView, UpdateResult, ViewResult, ViewSpawner};
use tinygui::views::input::{TextInput, TextInputSpawner, TextResult};
use tinygui::views::menu::{Menu, MenuItem, MenuSpawner};

fn panel(a: bool, b: bool, c: bool, up: bool, down: bool, left: bool, right: bool) -> ButtonSet {
    let mut s = ButtonSet::new();
    s.a.has_been_pressed = a;
    s.b.has_been_pressed = b;
    s.c.has_been_pressed = c;
    s.up.has_been_pressed = up;
    s.down.has_been_pressed = down;
    s.left.has_been_pressed = left;
    s.right.has_been_pressed = right;
    s
}

fn quiet() -> ButtonSet {
    panel(false, false, false, false, false, false, false)
}

fn levels(a: bool, b: bool, up: bool, down: bool, left: bool) -> ButtonLevels {
    ButtonLevels { a, b, c: false, up, down, left, right: false }
}

fn sample_menu() -> Menu {
    let mut m = Menu::new().title("main".to_owned());
    m.add_entry(MenuItem::TextToFunc("first".to_owned(), 1));
    m.add_entry(MenuItem::TextToFunc("second".to_owned(), 2));
    m.add_entry(MenuItem::TextToFunc("third".to_owned(), 3));
    m
}

#[test]
fn menu_down_wraps_around() {
    let mut m = sample_menu();
    let mut p = panel(false, false, false, false, true, false, false);
    m.update(&mut p);
    assert_eq!(m.selected, 1);
    let mut p = panel(false, false, false, false, true, false, false);
    m.update(&mut p);
    assert_eq!(m.selected, 2);
    let mut p = panel(false, false, false, false, true, false, false);
    m.update(&mut p);
    assert_eq!(m.selected, 0);
}

#[test]
fn menu_up_wraps_around() {
    let mut m = sample_menu();
    let mut p = panel(false, false, false, true, false, false, false);
    m.update(&mut p);
    assert_eq!(m.selected, 2);
    let mut p = panel(false, false, false, true, false, false, false);
    m.update(&mut p);
    assert_eq!(m.selected, 1);
}

#[test]
fn menu_left_and_right_jump_to_the_ends() {
    let mut m = sample_menu();
    let mut p = panel(false, false, false, false, false, false, true);
    m.update(&mut p);
    assert_eq!(m.selected, 2);
    let mut p = panel(false, false, false, false, false, true, false);
    m.update(&mut p);
    assert_eq!(m.selected, 0);
}

#[test]
fn menu_window_follows_the_selection() {
    let mut m = Menu::new();
    for i in 0..6 {
        m.add_entry(MenuItem::TextToFunc(format!("e{}", i), i));
    }
    let mut shown = vec![m.first_shown];
    for _ in 0..6 {
        let mut p = panel(false, false, false, false, true, false, false);
        m.update(&mut p);
        shown.push(m.first_shown);
    }
    // Selection walks 0 -> 1 -> 2 -> 3 -> 4 -> 5 -> 0.
    assert_eq!(shown, vec![0, 0, 0, 1, 2, 2, 0]);
}

#[test]
fn menu_activation_names_the_outside_action() {
    let mut m = sample_menu();
    let mut p = panel(true, false, false, false, true, false, false);
    let (decision, action) = m.update(&mut p);
    // Down moved to the second entry before a was handled.
    assert!(decision.is_none());
    assert_eq!(action, Some(2));
}

#[test]
fn menu_activation_spawns_the_child_view() {
    let mut m = Menu::new();
    m.add_entry(MenuItem::TextToView(
        "keyboard".to_owned(),
        ViewSpawner::TextInput(TextInput::spawner()),
    ));
    let mut p = panel(true, false, false, false, false, false, false);
    let (decision, action) = m.update(&mut p);
    assert!(action.is_none());
    match decision {
        Some(UpdateResult::NewView(UiView::TextInput(t))) => {
            assert_eq!(t.x, 0);
            assert_eq!(t.y, 0);
            assert!(!t.shifting);
            assert_eq!(t.string, "");
        }
        _ => panic!("expected a spawned keyboard view"),
    }
}

#[test]
fn menu_back_returns_to_caller() {
    let mut m = sample_menu();
    let mut p = panel(false, true, false, false, false, false, false);
    let (decision, action) = m.update(&mut p);
    assert!(action.is_none());
    assert!(matches!(decision, Some(UpdateResult::Back(None))));
}

#[test]
fn menu_leaves_the_shift_button_alone() {
    let mut m = sample_menu();
    let mut p = panel(true, true, true, false, false, false, false);
    m.update(&mut p);
    // a and the direction edges are consumed; b survives because a had an
    // activation; c is never the menu's business.
    assert!(!p.a.has_been_pressed);
    assert!(p.b.has_been_pressed);
    assert!(p.c.has_been_pressed);
}

#[test]
fn menu_spawner_builds_the_menu_lazily() {
    let sp = MenuSpawner {
        title: "statuses".to_owned(),
        entries: vec![("away".to_owned(), 10), ("busy".to_owned(), 11)],
    };
    match ViewSpawner::Menu(sp).spawn() {
        UiView::Menu(m) => {
            assert_eq!(m.title, "statuses");
            assert_eq!(m.entries.len(), 2);
            assert_eq!(m.selected, 0);
            assert!(matches!(&m.entries[1], MenuItem::TextToFunc(t, 11) if t == "busy"));
        }
        _ => panic!("expected a menu"),
    }
}

#[test]
fn keyboard_types_a_character() {
    let mut t = TextInput::new();
    let r = t.update(&mut panel(true, false, false, false, false, false, false));
    assert!(r.is_none());
    assert_eq!(t.string, "1");
}

#[test]
fn keyboard_backspace_removes_the_last_character() {
    let mut t = TextInput::new();
    t.update(&mut panel(true, false, false, false, false, false, false));
    t.update(&mut panel(false, true, false, false, false, false, false));
    assert_eq!(t.string, "");
}

#[test]
fn keyboard_backspace_on_empty_is_harmless() {
    let mut t = TextInput::new();
    let r = t.update(&mut panel(false, true, false, false, false, false, false));
    assert!(r.is_none());
    assert_eq!(t.string, "");
}

#[test]
fn keyboard_shift_applies_from_the_next_frame() {
    let mut t = TextInput::new();
    // Shift and activate in the same frame: the key comes from the layer
    // that was active when the frame began.
    t.update(&mut panel(true, false, true, false, false, false, false));
    assert_eq!(t.string, "1");
    assert!(t.shifting);
    t.update(&mut panel(true, false, false, false, false, false, false));
    assert_eq!(t.string, "1!");
}

#[test]
fn keyboard_cursor_wraps_at_the_edges() {
    let mut t = TextInput::new();
    t.update(&mut panel(false, false, false, true, false, false, false));
    assert_eq!(t.y, 3);
    t.update(&mut panel(false, false, false, false, false, true, false));
    assert_eq!(t.x, 11);
    t.update(&mut panel(false, false, false, false, true, false, false));
    assert_eq!(t.y, 0);
    t.update(&mut panel(false, false, false, false, false, false, true));
    assert_eq!(t.x, 0);
}

#[test]
fn keyboard_submit_returns_the_entered_text() {
    let mut t = TextInput::new();
    t.update(&mut panel(true, false, false, false, false, false, false));
    // Submit sits at row 2, column 11 of the normal layer.
    t.update(&mut panel(false, false, false, false, true, false, false));
    t.update(&mut panel(false, false, false, false, true, false, false));
    t.update(&mut panel(false, false, false, false, false, true, false));
    assert_eq!((t.x, t.y), (11, 2));
    let r = t.update(&mut panel(true, false, false, false, false, false, false));
    match r {
        Some(UpdateResult::Back(Some(ResultValue::Text(s)))) => assert_eq!(s, "1"),
        _ => panic!("expected a submit result"),
    }
}

#[test]
fn keyboard_cancel_returns_without_a_result() {
    let mut t = TextInput::new();
    t.update(&mut panel(false, false, true, false, false, false, false));
    // Cancel sits at row 2, column 11 of the shifted layer.
    t.update(&mut panel(false, false, false, false, true, false, false));
    t.update(&mut panel(false, false, false, false, true, false, false));
    t.update(&mut panel(false, false, false, false, false, true, false));
    let r = t.update(&mut panel(true, false, false, false, false, false, false));
    assert!(matches!(r, Some(UpdateResult::Back(None))));
}

#[test]
fn keyboard_consumes_every_edge() {
    let mut t = TextInput::new();
    let mut p = panel(true, true, true, true, true, true, true);
    t.update(&mut p);
    assert!(!p.a.has_been_pressed);
    assert!(!p.b.has_been_pressed);
    assert!(!p.c.has_been_pressed);
    assert!(!p.up.has_been_pressed);
    assert!(!p.down.has_been_pressed);
    assert!(!p.left.has_been_pressed);
    assert!(!p.right.has_been_pressed);
}

#[test]
fn text_result_carries_its_text() {
    let tr = TextResult { text: "abc".to_owned() };
    match tr.get() {
        ResultValue::Text(s) => assert_eq!(s, "abc"),
    }
}

#[test]
fn spawner_spawns_a_fresh_keyboard() {
    let sp = TextInputSpawner {};
    match sp.spawn() {
        UiView::TextInput(t) => {
            assert_eq!((t.x, t.y), (0, 0));
            assert_eq!(t.string, "");
            assert_eq!(t.normal.len(), 4);
            assert_eq!(t.shift.len(), 4);
        }
        _ => panic!("expected a keyboard"),
    }
}

#[test]
fn push_and_pop_views() {
    let mut r = Renderer::new();
    assert_eq!(r.views.len(), 0);
    r.pop_view();
    assert_eq!(r.views.len(), 0);
    r.push_view(UiView::Menu(sample_menu()));
    r.push_view(UiView::TextInput(TextInput::new()));
    assert_eq!(r.views.len(), 2);
    r.pop_view();
    assert_eq!(r.views.len(), 1);
    assert!(matches!(r.views[0], UiView::Menu(_)));
}

#[test]
fn update_on_an_empty_stack_does_nothing() {
    let mut r = Renderer::new();
    let mut buttons = ButtonSet::new();
    let action = r.update(&mut buttons, levels(true, true, false, false, false), 0);
    assert!(action.is_none());
    assert_eq!(r.views.len(), 0);
}

#[test]
fn enter_and_return_with_result() {
    // From [root menu], entering the keyboard and submitting brings the
    // stack back to [root menu], with the result delivered to it.
    let mut root = Menu::new().title("root".to_owned());
    root.add_entry(MenuItem::TextToView(
        "keyboard".to_owned(),
        ViewSpawner::TextInput(TextInput::spawner()),
    ));
    let mut r = Renderer::new();
    r.push_view(UiView::Menu(root));
    let mut buttons = ButtonSet::new();
    let mut now: u64 = 0;
    let mut frame = |r: &mut Renderer, buttons: &mut ButtonSet, lv: ButtonLevels, now: &mut u64| {
        let action = r.update(buttons, lv, *now);
        *now += 50;
        action
    };
    // Activate the menu entry: the keyboard is pushed.
    frame(&mut r, &mut buttons, levels(true, false, false, false, false), &mut now);
    assert_eq!(r.views.len(), 2);
    assert!(matches!(r.views[1], UiView::TextInput(_)));
    frame(&mut r, &mut buttons, levels(false, false, false, false, false), &mut now);
    // Walk the cursor to the submit key: down, down, left (wrapping).
    frame(&mut r, &mut buttons, levels(false, false, false, true, false), &mut now);
    frame(&mut r, &mut buttons, levels(false, false, false, false, false), &mut now);
    frame(&mut r, &mut buttons, levels(false, false, false, true, false), &mut now);
    frame(&mut r, &mut buttons, levels(false, false, false, false, false), &mut now);
    frame(&mut r, &mut buttons, levels(false, false, false, false, true), &mut now);
    frame(&mut r, &mut buttons, levels(false, false, false, false, false), &mut now);
    match &r.views[1] {
        UiView::TextInput(t) => assert_eq!((t.x, t.y), (11, 2)),
        _ => panic!("keyboard should still be on top"),
    }
    // Submit: the keyboard closes and the root menu is active again.
    frame(&mut r, &mut buttons, levels(true, false, false, false, false), &mut now);
    assert_eq!(r.views.len(), 1);
    match &r.views[0] {
        UiView::Menu(m) => assert_eq!(m.title, "root"),
        _ => panic!("root menu should be back on top"),
    }
}

#[test]
fn return_on_the_root_is_a_noop() {
    // From [root menu], a return-to-caller leaves the stack and its root
    // untouched, with no panic.
    let mut r = Renderer::new();
    r.push_view(UiView::Menu(sample_menu()));
    let mut buttons = ButtonSet::new();
    let action = r.update(&mut buttons, levels(false, true, false, false, false), 0);
    assert!(action.is_none());
    assert_eq!(r.views.len(), 1);
    match &r.views[0] {
        UiView::Menu(m) => {
            assert_eq!(m.title, "main");
            assert_eq!(m.entries.len(), 3);
        }
        _ => panic!("root should still be the menu"),
    }
}

#[test]
fn actions_surface_through_the_frame() {
    let mut r = Renderer::new();
    r.push_view(UiView::Menu(sample_menu()));
    let mut buttons = ButtonSet::new();
    let action = r.update(&mut buttons, levels(true, false, false, false, false), 0);
    assert_eq!(action, Some(1));
    assert_eq!(r.views.len(), 1);
}

#[test]
fn each_activation_reaches_at_most_one_frame() {
    // The a press is consumed by the first frame; holding the level for a
    // second frame without a new edge produces no second activation.
    let mut r = Renderer::new();
    r.push_view(UiView::Menu(sample_menu()));
    let mut buttons = ButtonSet::new();
    let first = r.update(&mut buttons, levels(true, false, false, false, false), 0);
    let second = r.update(&mut buttons, levels(true, false, false, false, false), 50);
    assert_eq!(first, Some(1));
    assert_eq!(second, None);
}
