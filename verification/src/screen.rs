//! The drawing surface as the core sees it: a display list of primitive
//! drawing commands with absolute coordinates, plus the surface dimensions.
//!
//! Views append commands here; the surrounding program walks the list once
//! per frame and commits it to the physical output.

use vstd::prelude::*;

verus! {

/// Default surface width in pixels.
pub const DEFAULT_WIDTH: i32 = 128;

/// Default surface height in pixels.
pub const DEFAULT_HEIGHT: i32 = 64;

/// One primitive drawing command, in absolute coordinates. Coordinates are
/// `i64` so that sums of `i32` positions and sizes always fit.
#[derive(PartialEq, Eq, Debug)]
pub enum DrawCmd {
    /// An axis-aligned rectangle between two corners.
    Rect { x0: i64, y0: i64, x1: i64, y1: i64, stroke: Option<u8>, fill: Option<u8> },
    /// A straight line between two points.
    Line { x0: i64, y0: i64, x1: i64, y1: i64, stroke: Option<u8> },
    /// A text run starting at a point.
    Text { x: i64, y: i64, text: String, stroke: Option<u8>, fill: Option<u8> },
    /// A one-bit-per-pixel image blitted at a point, one byte per row.
    Image { x: i64, y: i64, width: i32, height: i32, bits: Vec<u8> },
}

/// Mathematical model of one drawing command.
pub enum DrawCmdV {
    Rect { x0: int, y0: int, x1: int, y1: int, stroke: Option<u8>, fill: Option<u8> },
    Line { x0: int, y0: int, x1: int, y1: int, stroke: Option<u8> },
    Text { x: int, y: int, text: Seq<char>, stroke: Option<u8>, fill: Option<u8> },
    Image { x: int, y: int, width: int, height: int, bits: Seq<u8> },
}

impl View for DrawCmd {
    type V = DrawCmdV;

    open spec fn view(&self) -> DrawCmdV {
        match self {
            DrawCmd::Rect { x0, y0, x1, y1, stroke, fill } => DrawCmdV::Rect {
                x0: *x0 as int,
                y0: *y0 as int,
                x1: *x1 as int,
                y1: *y1 as int,
                stroke: *stroke,
                fill: *fill,
            },
            DrawCmd::Line { x0, y0, x1, y1, stroke } => DrawCmdV::Line {
                x0: *x0 as int,
                y0: *y0 as int,
                x1: *x1 as int,
                y1: *y1 as int,
                stroke: *stroke,
            },
            DrawCmd::Text { x, y, text, stroke, fill } => DrawCmdV::Text {
                x: *x as int,
                y: *y as int,
                text: text@,
                stroke: *stroke,
                fill: *fill,
            },
            DrawCmd::Image { x, y, width, height, bits } => DrawCmdV::Image {
                x: *x as int,
                y: *y as int,
                width: *width as int,
                height: *height as int,
                bits: bits@,
            },
        }
    }
}

/// The models of a list of drawing commands.
pub open spec fn cmds_view(s: Seq<DrawCmd>) -> Seq<DrawCmdV> {
    s.map_values(|c: DrawCmd| c@)
}

/// Appending one command appends its model.
pub proof fn lemma_cmds_view_push(s: Seq<DrawCmd>, c: DrawCmd)
    ensures
        cmds_view(s.push(c)) == cmds_view(s).push(c@),
{
    assert(cmds_view(s.push(c)) =~= cmds_view(s).push(c@));
}

/// Mathematical model of the drawing surface.
pub struct ScreenV {
    pub width: i32,
    pub height: i32,
    pub cmds: Seq<DrawCmdV>,
}

/// The drawing surface: its dimensions and the commands drawn this frame.
pub struct Screen {
    pub width: i32,
    pub height: i32,
    pub cmds: Vec<DrawCmd>,
}

impl View for Screen {
    type V = ScreenV;

    open spec fn view(&self) -> ScreenV {
        ScreenV { width: self.width, height: self.height, cmds: cmds_view(self.cmds@) }
    }
}

impl Screen {
    /// Create a surface with the default dimensions and nothing drawn.
    pub fn new() -> (s: Screen)
        ensures
            s@ == (ScreenV {
                width: DEFAULT_WIDTH,
                height: DEFAULT_HEIGHT,
                cmds: Seq::<DrawCmdV>::empty(),
            }),
    {
        let s = Screen { width: DEFAULT_WIDTH, height: DEFAULT_HEIGHT, cmds: Vec::new() };
        proof {
            assert(s@.cmds =~= Seq::<DrawCmdV>::empty());
        }
        s
    }

    /// Change the surface dimensions.
    pub fn set_shape(&mut self, width: i32, height: i32)
        ensures
            *final(self) == (Screen { width, height, ..*old(self) }),
    {
        self.width = width;
        self.height = height;
    }

    /// The surface width in pixels.
    pub fn get_width(&self) -> (r: i32)
        ensures
            r == self.width,
    {
        self.width
    }

    /// The surface height in pixels.
    pub fn get_height(&self) -> (r: i32)
        ensures
            r == self.height,
    {
        self.height
    }

    /// Discard everything drawn, at the start of a frame.
    pub fn clear(&mut self)
        ensures
            final(self)@ == (ScreenV {
                width: old(self).width,
                height: old(self).height,
                cmds: Seq::<DrawCmdV>::empty(),
            }),
    {
        self.cmds.clear();
        proof {
            assert(self@.cmds =~= Seq::<DrawCmdV>::empty());
        }
    }
}

} // verus!
