//! A static greeting view: a bordered section holding one text run.

use vstd::prelude::*;

use crate::buttons::ButtonSet;
use crate::screen::{DrawCmdV, Screen};
use crate::shape::{Drawable, Section, Shape, Text};
use crate::view::{ResultValue, UpdateResult};

verus! {

/// A view showing a fixed greeting inside a border.
pub struct HelloWorld {
    /// The drawable tree this view paints each frame.
    pub root: Section,
}

/// Mathematical model of the greeting view: the drawable tree it paints.
#[verifier::ext_equal]
pub struct HelloWorldV {
    pub root: Section,
}

impl View for HelloWorld {
    type V = HelloWorldV;

    open spec fn view(&self) -> HelloWorldV {
        HelloWorldV { root: self.root }
    }
}

impl HelloWorldV {
    /// The root tree can be drawn at its own position without any
    /// coordinate leaving `i32`.
    pub open spec fn wf(self) -> bool {
        self.root.fits_at(self.root.pos_x(), self.root.pos_y())
    }

    /// The commands this view paints: its drawable tree at its own position.
    pub open spec fn render_cmds(self, width: i32, height: i32) -> Seq<DrawCmdV> {
        self.root.cmds_at(self.root.pos_x(), self.root.pos_y())
    }
}

impl HelloWorld {
    /// Build the greeting sized to the given surface: a border one pixel in
    /// from each edge, with the greeting text at (3, 3) inside it.
    pub fn new(screen: &Screen) -> (r: HelloWorld)
        requires
            screen.width >= 0,
            screen.height >= 0,
        ensures
            r@.wf(),
            r.root.x == 0 && r.root.y == 0,
            r.root.width == screen.width - 1 && r.root.height == screen.height - 1,
            r.root.stroke == Some(1u8) && r.root.fill is None,
            r.root.contents@.len() == 1,
            r.root.contents@[0] matches Shape::Text(t) && t.x == 3 && t.y == 3 && t.text@
                == "Hello, world!"@ && t.stroke == Some(1u8) && t.fill is None,
    {
        let mut main = Section::new(screen.get_width() - 1, screen.get_height() - 1).stroke(
            Some(1),
        ).at(0, 0);
        let text = Text::new("Hello, world!".to_owned()).at(3, 3);
        main.push(Shape::Text(text));
        HelloWorld { root: main }
    }

    /// Consume one frame's input: the greeting reacts to nothing and asks
    /// for no transition.
    pub fn update(&mut self, _buttons: &mut ButtonSet) -> (r: Option<UpdateResult>)
        ensures
            r is None,
            *final(self) == *old(self),
            *final(_buttons) == *old(_buttons),
    {
        None
    }

    /// Render the greeting into the display list.
    pub fn render(&self, screen: &mut Screen)
        requires
            self@.wf(),
        ensures
            final(screen).width == old(screen).width,
            final(screen).height == old(screen).height,
            final(screen)@.cmds == old(screen)@.cmds + self@.render_cmds(
                old(screen).width,
                old(screen).height,
            ),
    {
        self.root.draw(screen);
    }

    /// Accept a result handed back by a closing child view; this view
    /// ignores it.
    pub fn result(&mut self, _result: ResultValue)
        ensures
            *final(self) == *old(self),
    {
    }
}

} // verus!
