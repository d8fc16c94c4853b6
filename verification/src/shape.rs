//! Drawable shapes: plain data describing rectangles, lines, text runs,
//! bitmaps and grouped sections. Drawing a shape appends primitive commands
//! to the surface's display list.

use vstd::prelude::*;

use crate::screen::{cmds_view, lemma_cmds_view_push, DrawCmd, DrawCmdV, Screen};

verus! {

/// Anything that can paint itself onto the drawing surface, either at its
/// own position or at a caller-supplied position.
pub trait Drawable {
    /// The shape's own x position.
    spec fn pos_x(&self) -> int;

    /// The shape's own y position.
    spec fn pos_y(&self) -> int;

    /// Drawing at `(x, y)` involves no coordinate outside `i32`.
    spec fn fits_at(&self, x: int, y: int) -> bool;

    /// The commands this shape paints when drawn at `(x, y)`.
    spec fn cmds_at(&self, x: int, y: int) -> Seq<DrawCmdV>;

    /// Paint the shape at its own position.
    fn draw(&self, screen: &mut Screen)
        requires
            self.fits_at(self.pos_x(), self.pos_y()),
        ensures
            final(screen).width == old(screen).width,
            final(screen).height == old(screen).height,
            final(screen)@.cmds == old(screen)@.cmds + self.cmds_at(self.pos_x(), self.pos_y()),
    ;

    /// Paint the shape at the given position.
    fn draw_at(&self, x: i32, y: i32, screen: &mut Screen)
        requires
            self.fits_at(x as int, y as int),
        ensures
            final(screen).width == old(screen).width,
            final(screen).height == old(screen).height,
            final(screen)@.cmds == old(screen)@.cmds + self.cmds_at(x as int, y as int),
    ;

    /// The shape's own x position.
    fn get_x(&self) -> (r: i32)
        ensures
            r as int == self.pos_x(),
    ;

    /// The shape's own y position.
    fn get_y(&self) -> (r: i32)
        ensures
            r as int == self.pos_y(),
    ;
}

/// A rectangle with optional stroke and fill.
pub struct Rect {
    pub x: i32,
    pub y: i32,
    pub width: i32,
    pub height: i32,
    pub fill: Option<u8>,
    pub stroke: Option<u8>,
    pub thickness: u8,
}

impl Rect {
    /// The command a rectangle paints at `(x, y)`.
    pub open spec fn cmd_at(self, x: int, y: int) -> DrawCmdV {
        DrawCmdV::Rect {
            x0: x,
            y0: y,
            x1: x + self.width,
            y1: y + self.height,
            stroke: self.stroke,
            fill: self.fill,
        }
    }

    /// A stroked, unfilled rectangle of the given size at the origin.
    pub fn new(width: i32, height: i32) -> (r: Rect)
        ensures
            r == (Rect { x: 0, y: 0, width, height, fill: None, stroke: Some(1u8), thickness: 1u8 }),
    {
        Rect { x: 0, y: 0, width, height, fill: None, stroke: Some(1), thickness: 1 }
    }

    /// Move the rectangle to `(x, y)`.
    pub fn at(self, x: i32, y: i32) -> (r: Rect)
        ensures
            r == (Rect { x, y, ..self }),
    {
        Rect { x, y, ..self }
    }

    /// Set the stroke colour, or `None` for no outline.
    pub fn stroke(self, stroke: Option<u8>) -> (r: Rect)
        ensures
            r == (Rect { stroke, ..self }),
    {
        Rect { stroke, ..self }
    }

    /// Set the fill colour, or `None` for no fill.
    pub fn fill(self, fill: Option<u8>) -> (r: Rect)
        ensures
            r == (Rect { fill, ..self }),
    {
        Rect { fill, ..self }
    }

    /// Set the stroke thickness.
    pub fn thickness(self, thickness: u8) -> (r: Rect)
        ensures
            r == (Rect { thickness, ..self }),
    {
        Rect { thickness, ..self }
    }
}

impl Drawable for Rect {
    open spec fn pos_x(&self) -> int {
        self.x as int
    }

    open spec fn pos_y(&self) -> int {
        self.y as int
    }

    open spec fn fits_at(&self, x: int, y: int) -> bool {
        true
    }

    open spec fn cmds_at(&self, x: int, y: int) -> Seq<DrawCmdV> {
        seq![self.cmd_at(x, y)]
    }

    fn draw(&self, screen: &mut Screen) {
        self.draw_at(self.x, self.y, screen)
    }

    fn draw_at(&self, x: i32, y: i32, screen: &mut Screen) {
        let cmd = DrawCmd::Rect {
            x0: x as i64,
            y0: y as i64,
            x1: x as i64 + self.width as i64,
            y1: y as i64 + self.height as i64,
            stroke: self.stroke,
            fill: self.fill,
        };
        proof {
            lemma_cmds_view_push(screen.cmds@, cmd);
            assert(cmds_view(screen.cmds@).push(cmd@) =~= cmds_view(screen.cmds@) + self.cmds_at(
                x as int,
                y as int,
            ));
        }
        screen.cmds.push(cmd);
    }

    fn get_x(&self) -> (r: i32) {
        self.x
    }

    fn get_y(&self) -> (r: i32) {
        self.y
    }
}

/// A straight line from `(x, y)` to `(x + width, y + height)`.
pub struct Line {
    pub x: i32,
    pub y: i32,
    pub width: i32,
    pub height: i32,
    pub stroke: Option<u8>,
    pub thickness: u8,
}

impl Line {
    /// The command a line paints at `(x, y)`.
    pub open spec fn cmd_at(self, x: int, y: int) -> DrawCmdV {
        DrawCmdV::Line {
            x0: x,
            y0: y,
            x1: x + self.width,
            y1: y + self.height,
            stroke: self.stroke,
        }
    }

    /// A stroked line with the given extent, starting at the origin.
    pub fn new(width: i32, height: i32) -> (r: Line)
        ensures
            r == (Line { x: 0, y: 0, width, height, stroke: Some(1u8), thickness: 1u8 }),
    {
        Line { x: 0, y: 0, width, height, stroke: Some(1), thickness: 1 }
    }

    /// Move the line start to `(x, y)`.
    pub fn at(self, x: i32, y: i32) -> (r: Line)
        ensures
            r == (Line { x, y, ..self }),
    {
        Line { x, y, ..self }
    }

    /// Set the stroke colour.
    pub fn stroke(self, stroke: Option<u8>) -> (r: Line)
        ensures
            r == (Line { stroke, ..self }),
    {
        Line { stroke, ..self }
    }

    /// Set the stroke thickness.
    pub fn thickness(self, thickness: u8) -> (r: Line)
        ensures
            r == (Line { thickness, ..self }),
    {
        Line { thickness, ..self }
    }
}

impl Drawable for Line {
    open spec fn pos_x(&self) -> int {
        self.x as int
    }

    open spec fn pos_y(&self) -> int {
        self.y as int
    }

    open spec fn fits_at(&self, x: int, y: int) -> bool {
        true
    }

    open spec fn cmds_at(&self, x: int, y: int) -> Seq<DrawCmdV> {
        seq![self.cmd_at(x, y)]
    }

    fn draw(&self, screen: &mut Screen) {
        self.draw_at(self.x, self.y, screen)
    }

    fn draw_at(&self, x: i32, y: i32, screen: &mut Screen) {
        let cmd = DrawCmd::Line {
            x0: x as i64,
            y0: y as i64,
            x1: x as i64 + self.width as i64,
            y1: y as i64 + self.height as i64,
            stroke: self.stroke,
        };
        proof {
            lemma_cmds_view_push(screen.cmds@, cmd);
            assert(cmds_view(screen.cmds@).push(cmd@) =~= cmds_view(screen.cmds@) + self.cmds_at(
                x as int,
                y as int,
            ));
        }
        screen.cmds.push(cmd);
    }

    fn get_x(&self) -> (r: i32) {
        self.x
    }

    fn get_y(&self) -> (r: i32) {
        self.y
    }
}

/// A text run with optional stroke and fill.
pub struct Text {
    pub x: i32,
    pub y: i32,
    pub text: String,
    pub fill: Option<u8>,
    pub stroke: Option<u8>,
}

impl Text {
    /// The command a text run paints at `(x, y)`.
    pub open spec fn cmd_at(self, x: int, y: int) -> DrawCmdV {
        DrawCmdV::Text { x, y, text: self.text@, stroke: self.stroke, fill: self.fill }
    }

    /// A stroked text run at the origin.
    pub fn new(text: String) -> (r: Text)
        ensures
            r.x == 0 && r.y == 0 && r.text@ == text@ && r.fill is None && r.stroke == Some(1u8),
    {
        Text { x: 0, y: 0, text, fill: None, stroke: Some(1) }
    }

    /// Replace the text.
    pub fn set_text(self, text: String) -> (r: Text)
        ensures
            r.x == self.x && r.y == self.y && r.text@ == text@ && r.fill == self.fill && r.stroke
                == self.stroke,
    {
        Text { text, ..self }
    }

    /// Move the text run to `(x, y)`.
    pub fn at(self, x: i32, y: i32) -> (r: Text)
        ensures
            r == (Text { x, y, ..self }),
    {
        Text { x, y, ..self }
    }

    /// Set the stroke colour.
    pub fn stroke(self, stroke: Option<u8>) -> (r: Text)
        ensures
            r == (Text { stroke, ..self }),
    {
        Text { stroke, ..self }
    }

    /// Set the fill colour.
    pub fn fill(self, fill: Option<u8>) -> (r: Text)
        ensures
            r == (Text { fill, ..self }),
    {
        Text { fill, ..self }
    }
}

impl Drawable for Text {
    open spec fn pos_x(&self) -> int {
        self.x as int
    }

    open spec fn pos_y(&self) -> int {
        self.y as int
    }

    open spec fn fits_at(&self, x: int, y: int) -> bool {
        true
    }

    open spec fn cmds_at(&self, x: int, y: int) -> Seq<DrawCmdV> {
        seq![self.cmd_at(x, y)]
    }

    fn draw(&self, screen: &mut Screen) {
        self.draw_at(self.x, self.y, screen)
    }

    fn draw_at(&self, x: i32, y: i32, screen: &mut Screen) {
        let cmd = DrawCmd::Text {
            x: x as i64,
            y: y as i64,
            text: self.text.clone(),
            stroke: self.stroke,
            fill: self.fill,
        };
        proof {
            lemma_cmds_view_push(screen.cmds@, cmd);
            assert(cmds_view(screen.cmds@).push(cmd@) =~= cmds_view(screen.cmds@) + self.cmds_at(
                x as int,
                y as int,
            ));
        }
        screen.cmds.push(cmd);
    }

    fn get_x(&self) -> (r: i32) {
        self.x
    }

    fn get_y(&self) -> (r: i32) {
        self.y
    }
}

/// A one-bit-per-pixel image, one byte per row.
pub struct Bitmap {
    pub x: i32,
    pub y: i32,
    pub width: i32,
    pub height: i32,
    pub image: Vec<u8>,
}

impl Bitmap {
    /// The command a bitmap paints at `(x, y)`.
    pub open spec fn cmd_at(self, x: int, y: int) -> DrawCmdV {
        DrawCmdV::Image {
            x,
            y,
            width: self.width as int,
            height: self.height as int,
            bits: self.image@,
        }
    }

    /// A bitmap of the given rows and size at the origin.
    pub fn new(image: &[u8], width: i32, height: i32) -> (r: Bitmap)
        ensures
            r.x == 0 && r.y == 0 && r.width == width && r.height == height && r.image@ == image@,
    {
        let mut rows: Vec<u8> = Vec::new();
        let mut i: usize = 0;
        while i < image.len()
            invariant
                i <= image@.len(),
                rows@ == image@.subrange(0, i as int),
            decreases image@.len() - i,
        {
            let b = image[i];
            rows.push(b);
            i = i + 1;
            proof {
                assert(rows@ =~= image@.subrange(0, i as int));
            }
        }
        proof {
            assert(rows@ =~= image@);
        }
        Bitmap { x: 0, y: 0, width, height, image: rows }
    }

    /// With `invert` set, flip every pixel of the image; otherwise keep it.
    pub fn invert(self, invert: bool) -> (r: Bitmap)
        ensures
            r.x == self.x && r.y == self.y && r.width == self.width && r.height == self.height,
            r.image@ == if invert {
                self.image@.map_values(|b: u8| !b)
            } else {
                self.image@
            },
    {
        if !invert {
            return self;
        }
        let mut rows: Vec<u8> = Vec::new();
        let mut i: usize = 0;
        while i < self.image.len()
            invariant
                i <= self.image@.len(),
                rows@ == self.image@.subrange(0, i as int).map_values(|b: u8| !b),
            decreases self.image@.len() - i,
        {
            let b = self.image[i];
            rows.push(!b);
            i = i + 1;
            proof {
                assert(rows@ =~= self.image@.subrange(0, i as int).map_values(|b: u8| !b));
            }
        }
        proof {
            assert(rows@ =~= self.image@.map_values(|b: u8| !b));
        }
        Bitmap { image: rows, ..self }
    }

    /// Move the bitmap to `(x, y)`.
    pub fn at(self, x: i32, y: i32) -> (r: Bitmap)
        ensures
            r == (Bitmap { x, y, ..self }),
    {
        Bitmap { x, y, ..self }
    }
}

impl Drawable for Bitmap {
    open spec fn pos_x(&self) -> int {
        self.x as int
    }

    open spec fn pos_y(&self) -> int {
        self.y as int
    }

    open spec fn fits_at(&self, x: int, y: int) -> bool {
        true
    }

    open spec fn cmds_at(&self, x: int, y: int) -> Seq<DrawCmdV> {
        seq![self.cmd_at(x, y)]
    }

    fn draw(&self, screen: &mut Screen) {
        self.draw_at(self.x, self.y, screen)
    }

    fn draw_at(&self, x: i32, y: i32, screen: &mut Screen) {
        let mut bits: Vec<u8> = Vec::new();
        let mut i: usize = 0;
        while i < self.image.len()
            invariant
                i <= self.image@.len(),
                bits@ == self.image@.subrange(0, i as int),
            decreases self.image@.len() - i,
        {
            let b = self.image[i];
            bits.push(b);
            i = i + 1;
            proof {
                assert(bits@ =~= self.image@.subrange(0, i as int));
            }
        }
        proof {
            assert(bits@ =~= self.image@);
        }
        let cmd = DrawCmd::Image {
            x: x as i64,
            y: y as i64,
            width: self.width,
            height: self.height,
            bits,
        };
        proof {
            lemma_cmds_view_push(screen.cmds@, cmd);
            assert(cmds_view(screen.cmds@).push(cmd@) =~= cmds_view(screen.cmds@) + self.cmds_at(
                x as int,
                y as int,
            ));
        }
        screen.cmds.push(cmd);
    }

    fn get_x(&self) -> (r: i32) {
        self.x
    }

    fn get_y(&self) -> (r: i32) {
        self.y
    }
}

/// One shape held inside a section.
pub enum Shape {
    Rect(Rect),
    Line(Line),
    Text(Text),
    Bitmap(Bitmap),
}

impl Drawable for Shape {
    open spec fn pos_x(&self) -> int {
        match self {
            Shape::Rect(s) => s.pos_x(),
            Shape::Line(s) => s.pos_x(),
            Shape::Text(s) => s.pos_x(),
            Shape::Bitmap(s) => s.pos_x(),
        }
    }

    open spec fn pos_y(&self) -> int {
        match self {
            Shape::Rect(s) => s.pos_y(),
            Shape::Line(s) => s.pos_y(),
            Shape::Text(s) => s.pos_y(),
            Shape::Bitmap(s) => s.pos_y(),
        }
    }

    open spec fn fits_at(&self, x: int, y: int) -> bool {
        true
    }

    open spec fn cmds_at(&self, x: int, y: int) -> Seq<DrawCmdV> {
        match self {
            Shape::Rect(s) => s.cmds_at(x, y),
            Shape::Line(s) => s.cmds_at(x, y),
            Shape::Text(s) => s.cmds_at(x, y),
            Shape::Bitmap(s) => s.cmds_at(x, y),
        }
    }

    fn draw(&self, screen: &mut Screen) {
        match self {
            Shape::Rect(s) => s.draw(screen),
            Shape::Line(s) => s.draw(screen),
            Shape::Text(s) => s.draw(screen),
            Shape::Bitmap(s) => s.draw(screen),
        }
    }

    fn draw_at(&self, x: i32, y: i32, screen: &mut Screen) {
        match self {
            Shape::Rect(s) => s.draw_at(x, y, screen),
            Shape::Line(s) => s.draw_at(x, y, screen),
            Shape::Text(s) => s.draw_at(x, y, screen),
            Shape::Bitmap(s) => s.draw_at(x, y, screen),
        }
    }

    fn get_x(&self) -> (r: i32) {
        match self {
            Shape::Rect(s) => s.get_x(),
            Shape::Line(s) => s.get_x(),
            Shape::Text(s) => s.get_x(),
            Shape::Bitmap(s) => s.get_x(),
        }
    }

    fn get_y(&self) -> (r: i32) {
        match self {
            Shape::Rect(s) => s.get_y(),
            Shape::Line(s) => s.get_y(),
            Shape::Text(s) => s.get_y(),
            Shape::Bitmap(s) => s.get_y(),
        }
    }
}

/// A group of shapes drawn together at a shared offset, followed by the
/// section's own boundary rectangle.
pub struct Section {
    pub x: i32,
    pub y: i32,
    pub width: i32,
    pub height: i32,
    pub fill: Option<u8>,
    pub stroke: Option<u8>,
    pub thickness: u8,
    pub contents: Vec<Shape>,
}

/// Drawing the shape at its own position offset by `(x, y)` involves no
/// coordinate outside `i32`.
pub open spec fn shape_offset_fits(s: Shape, x: int, y: int) -> bool {
    &&& i32::MIN <= s.pos_x() + x <= i32::MAX
    &&& i32::MIN <= s.pos_y() + y <= i32::MAX
}

/// The commands painted by the first `n` shapes of a section's contents,
/// each at its own position offset by `(x, y)`.
pub open spec fn section_children_cmds(contents: Seq<Shape>, n: int, x: int, y: int) -> Seq<
    DrawCmdV,
>
    decreases n,
{
    if n <= 0 {
        Seq::<DrawCmdV>::empty()
    } else {
        section_children_cmds(contents, n - 1, x, y) + contents[n - 1].cmds_at(
            contents[n - 1].pos_x() + x,
            contents[n - 1].pos_y() + y,
        )
    }
}

impl Section {
    /// The section's own boundary rectangle.
    pub open spec fn own_rect(self) -> Rect {
        Rect {
            x: 0,
            y: 0,
            width: self.width,
            height: self.height,
            fill: self.fill,
            stroke: self.stroke,
            thickness: self.thickness,
        }
    }

    /// An empty, unstroked section of the given size at the origin.
    pub fn new(width: i32, height: i32) -> (r: Section)
        ensures
            r.x == 0 && r.y == 0 && r.width == width && r.height == height,
            r.fill is None && r.stroke is None && r.thickness == 0,
            r.contents@ == Seq::<Shape>::empty(),
    {
        Section {
            x: 0,
            y: 0,
            width,
            height,
            fill: None,
            stroke: None,
            thickness: 0,
            contents: Vec::new(),
        }
    }

    /// Add a shape to the group.
    pub fn push(&mut self, other: Shape)
        ensures
            final(self).x == old(self).x,
            final(self).y == old(self).y,
            final(self).width == old(self).width,
            final(self).height == old(self).height,
            final(self).fill == old(self).fill,
            final(self).stroke == old(self).stroke,
            final(self).thickness == old(self).thickness,
            final(self).contents@ == old(self).contents@.push(other),
    {
        self.contents.push(other);
    }

    /// Move the section to `(x, y)`.
    pub fn at(self, x: i32, y: i32) -> (r: Section)
        ensures
            r == (Section { x, y, ..self }),
    {
        Section { x, y, ..self }
    }

    /// Set the boundary stroke colour.
    pub fn stroke(self, stroke: Option<u8>) -> (r: Section)
        ensures
            r == (Section { stroke, ..self }),
    {
        Section { stroke, ..self }
    }

    /// Set the boundary fill colour.
    pub fn fill(self, fill: Option<u8>) -> (r: Section)
        ensures
            r == (Section { fill, ..self }),
    {
        Section { fill, ..self }
    }
}

impl Drawable for Section {
    open spec fn pos_x(&self) -> int {
        self.x as int
    }

    open spec fn pos_y(&self) -> int {
        self.y as int
    }

    open spec fn fits_at(&self, x: int, y: int) -> bool {
        forall|i: int|
            0 <= i < self.contents@.len() ==> #[trigger] shape_offset_fits(self.contents@[i], x, y)
    }

    open spec fn cmds_at(&self, x: int, y: int) -> Seq<DrawCmdV> {
        section_children_cmds(self.contents@, self.contents@.len() as int, x, y)
            + self.own_rect().cmds_at(x, y)
    }

    fn draw(&self, screen: &mut Screen) {
        self.draw_at(self.x, self.y, screen)
    }

    fn draw_at(&self, x: i32, y: i32, screen: &mut Screen) {
        let ghost orig = screen@.cmds;
        let ghost ow = screen.width;
        let ghost oh = screen.height;
        let mut i: usize = 0;
        while i < self.contents.len()
            invariant
                i <= self.contents@.len(),
                self.fits_at(x as int, y as int),
                screen.width == ow,
                screen.height == oh,
                screen@.cmds == orig + section_children_cmds(
                    self.contents@,
                    i as int,
                    x as int,
                    y as int,
                ),
            decreases self.contents@.len() - i,
        {
            let child = &self.contents[i];
            proof {
                assert(shape_offset_fits(self.contents@[i as int], x as int, y as int));
            }
            child.draw_at(child.get_x() + x, child.get_y() + y, screen);
            i = i + 1;
        }
        let rect = Rect::new(self.width, self.height).at(x, y).fill(self.fill).stroke(
            self.stroke,
        ).thickness(self.thickness);
        rect.draw(screen);
        proof {
            assert(screen@.cmds =~= orig + self.cmds_at(x as int, y as int));
        }
    }

    fn get_x(&self) -> (r: i32) {
        self.x
    }

    fn get_y(&self) -> (r: i32) {
        self.y
    }
}

} // verus!
