//! Views, navigation decisions and result payloads.
//!
//! A view is one navigable screen. Each frame the active view consumes the
//! panel's edge-triggered input, may ask for a navigation transition, and
//! renders itself into the display list. Result payloads handed from a
//! closing view to its parent form a small closed union, so a mismatched
//! handoff cannot arise.

use vstd::prelude::*;

use crate::buttons::ButtonSet;
use crate::screen::{DrawCmdV, Screen};
use crate::views::helloworld::{HelloWorld, HelloWorldV};
use crate::views::input::{ti_after, ti_buttons_after, ti_decision, TextInput, TextInputSpawner,
    TextInputV};
use crate::views::menu::{menu_action, menu_after, menu_buttons_after, menu_decision, Menu,
    MenuSpawner, MenuSpawnerV, MenuV};

verus! {

/// A typed result payload handed from a closing view to its parent.
pub enum ResultValue {
    /// A text entered by the user.
    Text(String),
}

/// Mathematical model of a result payload.
#[verifier::ext_equal]
pub enum ResultValueV {
    Text(Seq<char>),
}

impl View for ResultValue {
    type V = ResultValueV;

    open spec fn view(&self) -> ResultValueV {
        match self {
            ResultValue::Text(s) => ResultValueV::Text(s@),
        }
    }
}

/// Something a closing view can turn into a result payload for its parent.
pub trait ViewResult {
    /// The payload this result stands for.
    spec fn payload(&self) -> ResultValueV;

    /// Produce the payload.
    fn get(&self) -> (r: ResultValue)
        ensures
            r@ == self.payload(),
    ;
}

/// The navigation decision an active view returns from one update.
pub enum UpdateResult {
    /// Enter the supplied view; it becomes active starting next frame.
    NewView(UiView),
    /// Return to the caller, optionally handing back a result payload.
    Back(Option<ResultValue>),
}

/// Mathematical model of a navigation decision.
#[verifier::ext_equal]
pub enum UpdateResultV {
    NewView(UiViewV),
    Back(Option<ResultValueV>),
}

impl View for UpdateResult {
    type V = UpdateResultV;

    open spec fn view(&self) -> UpdateResultV {
        match self {
            UpdateResult::NewView(v) => UpdateResultV::NewView(v@),
            UpdateResult::Back(p) => UpdateResultV::Back(
                match p {
                    Some(r) => Some(r@),
                    None => None,
                },
            ),
        }
    }
}

/// The model of an optional navigation decision.
pub open spec fn opt_res_view(r: Option<UpdateResult>) -> Option<UpdateResultV> {
    match r {
        Some(u) => Some(u@),
        None => None,
    }
}

/// One navigable screen: the closed set of view kinds the core drives.
pub enum UiView {
    Menu(Menu),
    TextInput(TextInput),
    HelloWorld(HelloWorld),
}

/// Mathematical model of a view.
#[verifier::ext_equal]
pub enum UiViewV {
    Menu(MenuV),
    TextInput(TextInputV),
    HelloWorld(HelloWorldV),
}

impl View for UiView {
    type V = UiViewV;

    open spec fn view(&self) -> UiViewV {
        match self {
            UiView::Menu(m) => UiViewV::Menu(m@),
            UiView::TextInput(t) => UiViewV::TextInput(t@),
            UiView::HelloWorld(h) => UiViewV::HelloWorld(h@),
        }
    }
}

impl UiViewV {
    /// Well-formedness of a view's state.
    pub open spec fn wf(self) -> bool {
        match self {
            UiViewV::Menu(m) => m.wf(),
            UiViewV::TextInput(t) => t.wf(),
            UiViewV::HelloWorld(h) => h.wf(),
        }
    }

    /// One update step of a view: its state afterwards, its navigation
    /// decision, and the identifier of an outside action it asks the caller
    /// to perform.
    pub open spec fn step(self, bs: ButtonSet) -> (UiViewV, Option<UpdateResultV>, Option<u64>) {
        match self {
            UiViewV::Menu(m) => (
                UiViewV::Menu(menu_after(m, bs)),
                menu_decision(m, bs),
                menu_action(m, bs),
            ),
            UiViewV::TextInput(t) => (UiViewV::TextInput(ti_after(t, bs)), ti_decision(t, bs), None),
            UiViewV::HelloWorld(h) => (self, None, None),
        }
    }

    /// The panel after a view's update has consumed its share of the
    /// pending activations. Only activation flags are ever touched.
    pub open spec fn buttons_after(self, bs: ButtonSet) -> ButtonSet {
        match self {
            UiViewV::Menu(m) => menu_buttons_after(bs),
            UiViewV::TextInput(t) => ti_buttons_after(bs),
            UiViewV::HelloWorld(h) => bs,
        }
    }

    /// Receiving a result payload leaves every current view kind unchanged;
    /// each absorbs or ignores the payload without touching its state.
    pub open spec fn deliver(self, r: ResultValueV) -> UiViewV {
        self
    }

    /// The commands a view paints when rendered on a surface of the given
    /// dimensions.
    pub open spec fn render_cmds(self, width: i32, height: i32) -> Seq<DrawCmdV> {
        match self {
            UiViewV::Menu(m) => m.render_cmds(width, height),
            UiViewV::TextInput(t) => t.render_cmds(width, height),
            UiViewV::HelloWorld(h) => h.render_cmds(width, height),
        }
    }
}

impl UiView {
    /// Well-formedness of a view's state.
    pub open spec fn wf(self) -> bool {
        self@.wf()
    }

    /// Consume one frame's input state and decide: the optional navigation
    /// transition, and an optional identifier of an outside action for the
    /// caller to perform.
    pub fn update(&mut self, buttons: &mut ButtonSet) -> (r: (Option<UpdateResult>, Option<u64>))
        requires
            old(self).wf(),
        ensures
            final(self)@ == old(self)@.step(*old(buttons)).0,
            opt_res_view(r.0) == old(self)@.step(*old(buttons)).1,
            r.1 == old(self)@.step(*old(buttons)).2,
            *final(buttons) == old(self)@.buttons_after(*old(buttons)),
            final(self).wf(),
            r.0 matches Some(UpdateResult::NewView(v)) ==> v.wf(),
    {
        match self {
            UiView::Menu(m) => m.update(buttons),
            UiView::TextInput(t) => (t.update(buttons), None),
            UiView::HelloWorld(h) => (h.update(buttons), None),
        }
    }

    /// Accept a typed result handed back by a child view that has closed.
    /// Every current view kind leaves its state unchanged.
    pub fn result(&mut self, result: ResultValue)
        ensures
            *final(self) == *old(self),
    {
        match self {
            UiView::Menu(m) => m.result(result),
            UiView::TextInput(t) => t.result(result),
            UiView::HelloWorld(h) => h.result(result),
        }
    }

    /// Render this view into the display list.
    pub fn render(&self, screen: &mut Screen)
        requires
            self.wf(),
            0 <= old(screen).width <= 16384,
            0 <= old(screen).height <= 16384,
        ensures
            final(screen).width == old(screen).width,
            final(screen).height == old(screen).height,
            final(screen)@.cmds == old(screen)@.cmds + self@.render_cmds(
                old(screen).width,
                old(screen).height,
            ),
    {
        match self {
            UiView::Menu(m) => m.render(screen),
            UiView::TextInput(t) => t.render(screen),
            UiView::HelloWorld(h) => h.render(screen),
        }
    }
}

/// Law: a view's update only consumes activation flags, so flushing the
/// panel afterwards yields the same state as flushing the polled panel
/// directly.
#[verifier::rlimit(50)]
pub proof fn lemma_cleared_after_view(v: UiViewV, bs: ButtonSet)
    ensures
        v.buttons_after(bs).cleared() == bs.cleared(),
{
    match v {
        UiViewV::Menu(m) => {
            assert(menu_buttons_after(bs).cleared() == bs.cleared());
        },
        UiViewV::TextInput(t) => {
            assert(ti_buttons_after(bs).cleared() == bs.cleared());
        },
        UiViewV::HelloWorld(h) => {
        },
    }
}

/// Builds a view on demand, deferring construction until the view is
/// actually entered.
pub enum ViewSpawner {
    TextInput(TextInputSpawner),
    Menu(MenuSpawner),
}

/// Mathematical model of a spawner.
#[verifier::ext_equal]
pub enum ViewSpawnerV {
    TextInput,
    Menu(MenuSpawnerV),
}

impl View for ViewSpawner {
    type V = ViewSpawnerV;

    open spec fn view(&self) -> ViewSpawnerV {
        match self {
            ViewSpawner::TextInput(s) => ViewSpawnerV::TextInput,
            ViewSpawner::Menu(s) => ViewSpawnerV::Menu(s@),
        }
    }
}

impl ViewSpawnerV {
    /// The spawner's data can produce a well-formed view.
    pub open spec fn swf(self) -> bool {
        match self {
            ViewSpawnerV::TextInput => true,
            ViewSpawnerV::Menu(ms) => ms.swf(),
        }
    }

    /// The view this spawner produces.
    pub open spec fn spawn_view(self) -> UiViewV {
        match self {
            ViewSpawnerV::TextInput => UiViewV::TextInput(TextInputV::init()),
            ViewSpawnerV::Menu(ms) => UiViewV::Menu(ms.menu()),
        }
    }
}

impl ViewSpawner {
    /// Construct the view, invoked exactly once per push.
    pub fn spawn(&self) -> (v: UiView)
        requires
            self@.swf(),
        ensures
            v@ == self@.spawn_view(),
            v.wf(),
    {
        match self {
            ViewSpawner::TextInput(s) => s.spawn(),
            ViewSpawner::Menu(s) => s.spawn(),
        }
    }
}

} // verus!
