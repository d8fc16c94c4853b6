//! The view stack and the per-frame navigation protocol.
//!
//! The stack owns the live views; only the top one is active. Each frame
//! the panel is polled, the active view updates and decides, the decision
//! is applied to the stack, consumed input edges are flushed, and the new
//! active view renders. The bottom entry is the permanent root: no
//! decision ever empties the stack.

use vstd::prelude::*;

use crate::buttons::{ButtonLevels, ButtonSet};
use crate::screen::Screen;
use crate::view::{opt_res_view, ResultValue, ResultValueV, UiView, UiViewV, UpdateResult,
    UpdateResultV};

verus! {

/// The models of a stack of views, bottom first.
pub open spec fn stack_view(s: Seq<UiView>) -> Seq<UiViewV> {
    s.map_values(|v: UiView| v@)
}

/// Every view on the stack is well-formed.
pub open spec fn stack_wf(s: Seq<UiViewV>) -> bool {
    forall|i: int| 0 <= i < s.len() ==> (#[trigger] s[i]).wf()
}

/// The transition protocol: how one navigation decision reshapes the
/// stack. Entering pushes the new view; returning pops the active view and
/// hands any result payload to the uncovered view; a return on a
/// single-element stack is absorbed as a no-op.
pub open spec fn transition(stack: Seq<UiViewV>, r: Option<UpdateResultV>) -> Seq<UiViewV> {
    match r {
        None => stack,
        Some(UpdateResultV::NewView(v)) => stack.push(v),
        Some(UpdateResultV::Back(p)) => if stack.len() <= 1 {
            stack
        } else {
            match p {
                None => stack.drop_last(),
                Some(rv) => stack.drop_last().update(
                    stack.len() - 2,
                    stack[stack.len() - 2].deliver(rv),
                ),
            }
        },
    }
}

/// One whole frame of stack evolution: the active view steps on the polled
/// panel, then its decision is applied.
pub open spec fn frame_stack(stack: Seq<UiViewV>, bs: ButtonSet) -> Seq<UiViewV> {
    if stack.len() == 0 {
        stack
    } else {
        let top = stack.last();
        transition(stack.update(stack.len() - 1, top.step(bs).0), top.step(bs).1)
    }
}

/// The outside action the active view asks for during one frame.
pub open spec fn frame_action(stack: Seq<UiViewV>, bs: ButtonSet) -> Option<u64> {
    if stack.len() == 0 {
        None
    } else {
        stack.last().step(bs).2
    }
}

/// Law: applying any navigation decision to a non-empty stack leaves it
/// non-empty — no decision ever removes the root.
pub proof fn lemma_transition_keeps_nonempty(stack: Seq<UiViewV>, r: Option<UpdateResultV>)
    requires
        stack.len() >= 1,
    ensures
        transition(stack, r).len() >= 1,
{
}

/// Law: a return-to-caller on a single-element stack is a no-op: the stack,
/// and with it the identity of its root view, is unchanged, whether or not
/// a result payload was supplied.
pub proof fn lemma_back_on_root_is_noop(stack: Seq<UiViewV>, p: Option<ResultValueV>)
    requires
        stack.len() == 1,
    ensures
        transition(stack, Some(UpdateResultV::Back(p))) == stack,
{
}

/// Law: entering a new view grows the stack by exactly one; the entered
/// view is the new top — the one addressed by subsequent update and render
/// frames — and every view beneath it is unchanged.
pub proof fn lemma_enter_pushes(stack: Seq<UiViewV>, v: UiViewV)
    ensures
        transition(stack, Some(UpdateResultV::NewView(v))).len() == stack.len() + 1,
        transition(stack, Some(UpdateResultV::NewView(v))).last() == v,
        forall|i: int|
            0 <= i < stack.len() ==> #[trigger] transition(
                stack,
                Some(UpdateResultV::NewView(v)),
            )[i] == stack[i],
{
}

/// Law: a whole frame keeps a non-empty stack non-empty; and while a child
/// view is active the root is not touched at all.
pub proof fn lemma_frame_keeps_root(stack: Seq<UiViewV>, bs: ButtonSet)
    requires
        stack.len() >= 1,
    ensures
        frame_stack(stack, bs).len() >= 1,
        stack.len() >= 2 ==> frame_stack(stack, bs)[0] == stack[0],
{
}

/// Mutable access to the top of the stack.
fn stack_top_mut(views: &mut Vec<UiView>) -> (element: &mut UiView)
    requires
        old(views)@.len() > 0,
    ensures
        *element == old(views)@.last(),
        final(views)@ == old(views)@.update(old(views)@.len() - 1, *final(element)),
{
    let n = views.len();
    &mut views[n - 1]
}

/// The ordered, non-empty-once-rooted stack of live views.
pub struct Renderer {
    /// The views, bottom first; the last entry is active.
    pub views: Vec<UiView>,
}

impl View for Renderer {
    type V = Seq<UiViewV>;

    open spec fn view(&self) -> Seq<UiViewV> {
        stack_view(self.views@)
    }
}

impl Renderer {
    /// Every held view is well-formed.
    pub open spec fn wf(self) -> bool {
        stack_wf(self@)
    }

    /// An empty stack; the root view is pushed once at startup.
    pub fn new() -> (r: Renderer)
        ensures
            r@ == Seq::<UiViewV>::empty(),
            r.wf(),
    {
        let r = Renderer { views: Vec::new() };
        proof {
            assert(r@ =~= Seq::<UiViewV>::empty());
        }
        r
    }

    /// Push a view; it becomes the active one.
    pub fn push_view(&mut self, view: UiView)
        requires
            view.wf(),
        ensures
            final(self)@ == old(self)@.push(view@),
            old(self).wf() ==> final(self).wf(),
    {
        let ghost v = view@;
        self.views.push(view);
        proof {
            assert(self@ =~= old(self)@.push(v));
            if old(self).wf() {
                assert forall|i: int| 0 <= i < self@.len() implies (#[trigger] self@[i]).wf() by {
                    if i < old(self)@.len() {
                        assert(old(self)@[i].wf());
                    }
                }
            }
        }
    }

    /// Pop the active view, if any; the view below becomes active.
    pub fn pop_view(&mut self)
        ensures
            old(self)@.len() == 0 ==> final(self)@ == old(self)@,
            old(self)@.len() > 0 ==> final(self)@ == old(self)@.drop_last(),
            old(self).wf() ==> final(self).wf(),
    {
        self.views.pop();
        proof {
            if old(self)@.len() > 0 {
                assert(self@ =~= old(self)@.drop_last());
            } else {
                assert(self@ =~= old(self)@);
            }
            if old(self).wf() {
                assert forall|i: int| 0 <= i < self@.len() implies (#[trigger] self@[i]).wf() by {
                    assert(old(self)@[i].wf());
                }
            }
        }
    }

    /// Render the active view, if any, into the display list. Views lower
    /// in the stack are fully inactive and paint nothing.
    pub fn render(&mut self, screen: &mut Screen)
        requires
            old(self).wf(),
            0 <= old(screen).width <= 16384,
            0 <= old(screen).height <= 16384,
        ensures
            *final(self) == *old(self),
            final(screen).width == old(screen).width,
            final(screen).height == old(screen).height,
            old(self)@.len() == 0 ==> final(screen)@.cmds == old(screen)@.cmds,
            old(self)@.len() > 0 ==> final(screen)@.cmds == old(screen)@.cmds + old(
                self,
            )@.last().render_cmds(old(screen).width, old(screen).height),
    {
        let n = self.views.len();
        if n > 0 {
            let view = &self.views[n - 1];
            proof {
                assert(self@[n as int - 1].wf());
            }
            view.render(screen);
        }
    }

    /// Apply one navigation decision to the stack: entering pushes the
    /// supplied view, returning pops the active view (unless only the root
    /// remains) and hands any result payload to the uncovered view.
    fn apply_transition(&mut self, dec: Option<UpdateResult>)
        requires
            old(self).wf(),
            dec matches Some(UpdateResult::NewView(v)) ==> v.wf(),
        ensures
            final(self)@ == transition(old(self)@, opt_res_view(dec)),
            final(self).wf(),
    {
        let ghost s1 = self@;
        let ghost decv = opt_res_view(dec);
        match dec {
            Some(UpdateResult::NewView(v)) => {
                let ghost vv = v@;
                self.views.push(v);
                proof {
                    assert(self@ =~= s1.push(vv));
                    assert(stack_wf(self@)) by {
                        assert forall|i: int| 0 <= i < self@.len() implies (
                        #[trigger] self@[i]).wf() by {
                            if i < s1.len() {
                                assert(s1[i].wf());
                            }
                        }
                    }
                }
            },
            Some(UpdateResult::Back(p)) => {
                if self.views.len() > 1 {
                    self.views.pop();
                    proof {
                        assert(self@ =~= s1.drop_last());
                    }
                    match p {
                        Some(result) => {
                            let parent = stack_top_mut(&mut self.views);
                            parent.result(result);
                            proof {
                                assert(self@ =~= s1.drop_last());
                                assert(self@ =~= transition(s1, decv));
                            }
                        },
                        None => {
                            proof {
                                assert(self@ =~= transition(s1, decv));
                            }
                        },
                    }
                } else {
                    proof {
                        assert(self@ =~= transition(s1, decv));
                    }
                }
                proof {
                    assert(stack_wf(self@)) by {
                        assert forall|i: int| 0 <= i < self@.len() implies (
                        #[trigger] self@[i]).wf() by {
                            assert(s1[i].wf());
                        }
                    }
                }
            },
            None => {},
        }
    }

    /// One frame of update and navigation on an already-polled panel: the
    /// active view updates and decides, the decision is applied, and every
    /// pending activation is flushed.
    fn update_frame(&mut self, buttons: &mut ButtonSet) -> (action: Option<u64>)
        requires
            old(self).wf(),
        ensures
            final(self)@ == frame_stack(old(self)@, *old(buttons)),
            action == frame_action(old(self)@, *old(buttons)),
            *final(buttons) == old(buttons).cleared(),
            final(self).wf(),
    {
        let ghost s0 = self@;
        let ghost bs0 = *buttons;
        if self.views.len() == 0 {
            buttons.flush();
            return None;
        }
        let ghost top0 = s0.last();
        proof {
            assert(s0[s0.len() - 1].wf());
        }
        let view = stack_top_mut(&mut self.views);
        let du = view.update(buttons);
        let ghost decv = opt_res_view(du.0);
        let ghost s1 = s0.update(s0.len() - 1, top0.step(bs0).0);
        proof {
            assert(self@ =~= s1);
            assert(decv == top0.step(bs0).1);
            assert(du.1 == top0.step(bs0).2);
            assert(stack_wf(s1)) by {
                assert forall|i: int| 0 <= i < s1.len() implies (#[trigger] s1[i]).wf() by {
                    if i < s1.len() - 1 {
                        assert(s0[i].wf());
                    }
                }
            }
        }
        self.apply_transition(du.0);
        buttons.flush();
        proof {
            crate::view::lemma_cleared_after_view(top0, bs0);
            assert(self@ == frame_stack(s0, bs0));
        }
        du.1
    }

    /// Drive one frame of input and navigation: poll the panel, let the
    /// active view update and decide, apply the transition protocol, and
    /// flush consumed edges so each activation reaches at most one update.
    /// Returns the outside action the active view asked for, if any.
    pub fn update(&mut self, buttons: &mut ButtonSet, levels: ButtonLevels, now: u64) -> (action:
        Option<u64>)
        requires
            old(self).wf(),
            old(buttons).wf(),
            old(buttons).stamps_le(now),
        ensures
            final(self)@ == frame_stack(old(self)@, old(buttons).poll_all_spec(levels, now)),
            action == frame_action(old(self)@, old(buttons).poll_all_spec(levels, now)),
            *final(buttons) == old(buttons).poll_all_spec(levels, now).cleared(),
            final(self).wf(),
            final(buttons).wf(),
            final(buttons).stamps_le(now),
            old(self)@.len() >= 1 ==> final(self)@.len() >= 1,
    {
        buttons.poll_all(levels, now);
        let ghost polled = *buttons;
        let action = self.update_frame(buttons);
        proof {
            crate::buttons::lemma_cleared_keeps_wf(polled, now);
            if old(self)@.len() >= 1 {
                lemma_frame_keeps_root(stack_view(old(self).views@), polled);
            }
        }
        action
    }
}

} // verus!