use tinygui::renderer::Renderer;
use tinygui::screen::{DrawCmd, Screen, DEFAULT_HEIGHT, DEFAULT_WIDTH};
use tinygui::shape::{Bitmap, Drawable, Line, Rect, Section, Shape, Text};
use tinygui::view::UiView;
use tinygui::views::helloworld::HelloWorld;
use tinygui::views::input::TextInput;
use tinygui::views::menu::{Menu, MenuItem};

#[test]
fn screen_starts_with_default_shape_and_no_commands() {
    let s = Screen::new();
    assert_eq!(s.get_width(), DEFAULT_WIDTH);
    assert_eq!(s.get_height(), DEFAULT_HEIGHT);
    assert!(s.cmds.is_empty());
}

#[test]
fn set_shape_changes_the_dimensions() {
    let mut s = Screen::new();
    s.set_shape(96, 32);
    assert_eq!(s.get_width(), 96);
    assert_eq!(s.get_height(), 32);
}

#[test]
fn clear_discards_drawn_commands() {
    let mut s = Screen::new();
    Rect::new(5, 5).draw(&mut s);
    assert_eq!(s.cmds.len(), 1);
    s.clear();
    assert!(s.cmds.is_empty());
}

#[test]
fn rect_draws_between_its_corners() {
    let mut s = Screen::new();
    Rect::new(10, 12).at(3, 4).fill(Some(1)).draw(&mut s);
    assert_eq!(
        s.cmds,
        vec![DrawCmd::Rect { x0: 3, y0: 4, x1: 13, y1: 16, stroke: Some(1), fill: Some(1) }]
    );
}

#[test]
fn line_draws_with_its_extent() {
    let mut s = Screen::new();
    Line::new(20, 0).at(2, 11).draw(&mut s);
    assert_eq!(s.cmds, vec![DrawCmd::Line { x0: 2, y0: 11, x1: 22, y1: 11, stroke: Some(1) }]);
}

#[test]
fn text_draws_its_string() {
    let mut s = Screen::new();
    Text::new("hi".to_owned()).at(7, 9).draw(&mut s);
    assert_eq!(
        s.cmds,
        vec![DrawCmd::Text { x: 7, y: 9, text: "hi".to_owned(), stroke: Some(1), fill: None }]
    );
}

#[test]
fn draw_at_overrides_the_position() {
    let mut s = Screen::new();
    Text::new("x".to_owned()).at(7, 9).draw_at(1, 2, &mut s);
    assert!(matches!(&s.cmds[0], DrawCmd::Text { x: 1, y: 2, .. }));
}

#[test]
fn bitmap_invert_flips_every_row() {
    let b = Bitmap::new(&[0b10100000, 0b00000001], 8, 2).invert(true);
    assert_eq!(b.image, vec![0b01011111, 0b11111110]);
    let same = Bitmap::new(&[0b10100000], 8, 1).invert(false);
    assert_eq!(same.image, vec![0b10100000]);
}

#[test]
fn bitmap_draws_its_rows() {
    let mut s = Screen::new();
    Bitmap::new(&[1, 2, 3], 5, 3).at(4, 6).draw(&mut s);
    assert_eq!(
        s.cmds,
        vec![DrawCmd::Image { x: 4, y: 6, width: 5, height: 3, bits: vec![1, 2, 3] }]
    );
}

#[test]
fn section_draws_children_at_offsets_then_its_border() {
    let mut sec = Section::new(50, 40).stroke(Some(1)).at(10, 20);
    sec.push(Shape::Text(Text::new("t".to_owned()).at(3, 3)));
    sec.push(Shape::Rect(Rect::new(5, 5).at(1, 2)));
    let mut s = Screen::new();
    sec.draw(&mut s);
    assert_eq!(s.cmds.len(), 3);
    assert!(matches!(&s.cmds[0], DrawCmd::Text { x: 13, y: 23, .. }));
    assert!(
        matches!(&s.cmds[1], DrawCmd::Rect { x0: 11, y0: 22, x1: 16, y1: 27, .. })
    );
    assert!(
        matches!(&s.cmds[2], DrawCmd::Rect { x0: 10, y0: 20, x1: 60, y1: 60, stroke: Some(1), fill: None })
    );
}

#[test]
fn hello_world_renders_its_greeting() {
    let s0 = Screen::new();
    let hello = HelloWorld::new(&s0);
    let mut s = Screen::new();
    hello.render(&mut s);
    assert_eq!(s.cmds.len(), 2);
    assert!(
        matches!(&s.cmds[0], DrawCmd::Text { x: 3, y: 3, text, .. } if text == "Hello, world!")
    );
    assert!(matches!(&s.cmds[1], DrawCmd::Rect { x0: 0, y0: 0, x1: 127, y1: 63, .. }));
}

#[test]
fn keyboard_render_paints_grid_line_and_text() {
    let mut t = TextInput::new();
    let mut p = tinygui::buttons::ButtonSet::new();
    p.a.has_been_pressed = true;
    t.update(&mut p);
    let mut s = Screen::new();
    t.render(&mut s);
    // 48 cells of two commands each, then the separator and the text line.
    assert_eq!(s.cmds.len(), 48 * 2 + 2);
    // The first cell is selected: filled rectangle, then the '1' drawn
    // inverted.
    assert!(
        matches!(&s.cmds[0], DrawCmd::Rect { x0: 0, y0: 15, x1: 10, y1: 27, stroke: Some(1), fill: Some(1) })
    );
    assert!(
        matches!(&s.cmds[1], DrawCmd::Text { x: 3, y: 18, text, stroke: Some(0), fill: Some(1) } if text == "1")
    );
    // The submit key (row 2, column 11) carries an icon.
    let submit = &s.cmds[(2 * 12 + 11) * 2 + 1];
    assert!(
        matches!(submit, DrawCmd::Image { x: 112, y: 41, width: 6, height: 8, bits } if bits[7] == 0b11111100)
    );
    assert!(
        matches!(&s.cmds[96], DrawCmd::Line { x0: 2, y0: 11, x1: 126, y1: 11, stroke: Some(1) })
    );
    assert!(
        matches!(&s.cmds[97], DrawCmd::Text { x: 2, y: 2, text, stroke: Some(1), fill: None } if text == "1")
    );
}

#[test]
fn menu_render_paints_entries_and_boundary() {
    let mut m = Menu::new().title("main".to_owned());
    m.add_entry(MenuItem::TextToFunc("first".to_owned(), 1));
    m.add_entry(MenuItem::TextToFunc("second".to_owned(), 2));
    let mut s = Screen::new();
    m.render(&mut s);
    // Two entries of two commands each, the separator line, the title, and
    // the boundary rectangle.
    assert_eq!(s.cmds.len(), 7);
    assert!(
        matches!(&s.cmds[0], DrawCmd::Rect { x0: 0, y0: 0, x1: 127, y1: 13, fill: Some(1), .. })
    );
    assert!(
        matches!(&s.cmds[1], DrawCmd::Text { x: 3, y: 3, text, stroke: Some(0), fill: Some(1) } if text == "first")
    );
    assert!(
        matches!(&s.cmds[3], DrawCmd::Text { x: 3, y: 16, text, stroke: Some(1), fill: Some(0) } if text == "second")
    );
    assert!(matches!(&s.cmds[4], DrawCmd::Line { y0: 52, y1: 52, .. }));
    assert!(matches!(&s.cmds[5], DrawCmd::Text { x: 3, y: 55, text, .. } if text == "main"));
    assert!(matches!(&s.cmds[6], DrawCmd::Rect { x0: 0, y0: 0, x1: 127, y1: 63, .. }));
}

#[test]
fn menu_without_title_paints_the_filler_pattern() {
    let mut m = Menu::new();
    m.add_entry(MenuItem::TextToFunc("only".to_owned(), 1));
    let mut s = Screen::new();
    m.render(&mut s);
    // One entry (2), the separator (1), 15 * 4 filler lines, the boundary.
    assert_eq!(s.cmds.len(), 2 + 1 + 60 + 1);
    assert!(matches!(&s.cmds[3], DrawCmd::Line { x0: -4, y0: 53, x1: 5, y1: 62, .. }));
}

#[test]
fn scrolled_menu_shows_the_arrows() {
    let mut m = Menu::new().title("t".to_owned());
    for i in 0..6 {
        m.add_entry(MenuItem::TextToFunc(format!("e{}", i), i));
    }
    m.selected = 3;
    m.first_shown = 1;
    let mut s = Screen::new();
    m.render(&mut s);
    // Four visible entries (8), separator (1), title (1), both arrow
    // markers (2 + 2), boundary (1).
    assert_eq!(s.cmds.len(), 15);
    assert!(matches!(&s.cmds[10], DrawCmd::Rect { x0: 0, y0: 52, .. }));
    assert!(matches!(&s.cmds[11], DrawCmd::Image { x: 3, y: 54, width: 5, height: 8, .. }));
    assert!(matches!(&s.cmds[12], DrawCmd::Rect { x0: 117, y0: 52, .. }));
    assert!(matches!(&s.cmds[13], DrawCmd::Image { x: 120, y: 54, .. }));
}

#[test]
fn renderer_renders_only_the_top_view() {
    let s0 = Screen::new();
    let mut r = Renderer::new();
    r.push_view(UiView::HelloWorld(HelloWorld::new(&s0)));
    let mut m = Menu::new().title("top".to_owned());
    m.add_entry(MenuItem::TextToFunc("x".to_owned(), 1));
    r.push_view(UiView::Menu(m));
    let mut s = Screen::new();
    r.render(&mut s);
    let mut expected = Screen::new();
    let mut m2 = Menu::new().title("top".to_owned());
    m2.add_entry(MenuItem::TextToFunc("x".to_owned(), 1));
    m2.render(&mut expected);
    assert_eq!(s.cmds, expected.cmds);
}

#[test]
fn renderer_with_no_views_renders_nothing() {
    let mut r = Renderer::new();
    let mut s = Screen::new();
    r.render(&mut s);
    assert!(s.cmds.is_empty());
}
