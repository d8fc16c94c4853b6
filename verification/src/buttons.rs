//! Debounce, hold and auto-repeat state machine for the physical buttons.
//!
//! The caller reads the raw pin level and the clock once per frame and hands
//! them in as plain values; everything else is pure state-machine logic.

use vstd::prelude::*;

verus! {

/// Milliseconds a button must stay continuously pressed before it counts as held.
pub const HOLD_DURATION: u64 = 500;

/// Milliseconds between auto-repeat activation pulses while a button is held.
pub const TICK_DURATION: u64 = 300;

/// State of a single button.
pub struct Button {
    /// Whether the button was pressed at the previous poll.
    pub last_state: bool,
    /// When the current press started, while the button is down.
    pub last_pressed: Option<u64>,
    /// When the last hold or repeat pulse fired, while the button is held.
    pub last_ticked: Option<u64>,
    /// Whether the button has been continuously pressed for `HOLD_DURATION`.
    pub is_hold: bool,
    /// One-shot activation flag, raised by a qualifying event and consumed by
    /// `was_pressed`.
    pub has_been_pressed: bool,
}

impl Button {
    /// Internal consistency of the button state.
    pub open spec fn wf(self) -> bool {
        &&& self.last_state <==> self.last_pressed is Some
        &&& self.is_hold <==> self.last_ticked is Some
        &&& self.last_ticked is Some ==> self.last_state
    }

    /// All stored timestamps lie at or before `now`; polling with a monotone
    /// clock keeps this true.
    pub open spec fn stamps_le(self, now: u64) -> bool {
        &&& self.last_pressed matches Some(t) ==> t <= now
        &&& self.last_ticked matches Some(t) ==> t <= now
    }

    /// The state of a freshly constructed button.
    pub open spec fn init() -> Button {
        Button {
            last_state: false,
            last_pressed: None,
            last_ticked: None,
            is_hold: false,
            has_been_pressed: false,
        }
    }

    /// The released-to-pressed transition: a tap counts as one activation.
    pub open spec fn press_edge(self, pressed: bool) -> bool {
        pressed && !self.last_state
    }

    /// State once a press edge, if any, has been handled.
    pub open spec fn after_edge(self, pressed: bool, now: u64) -> Button {
        if self.press_edge(pressed) {
            Button {
                last_state: true,
                last_pressed: Some(now),
                last_ticked: None,
                is_hold: false,
                has_been_pressed: true,
            }
        } else {
            self
        }
    }

    /// This poll crosses the hold threshold: the button has been down for
    /// `HOLD_DURATION` and no pulse has fired during this press yet.
    pub open spec fn hold_fires(self, pressed: bool, now: u64) -> bool {
        &&& pressed
        &&& !self.press_edge(pressed)
        &&& self.last_ticked is None
        &&& self.last_pressed matches Some(t) && now >= t + HOLD_DURATION
    }

    /// This poll fires an auto-repeat pulse: the button is held and
    /// `TICK_DURATION` has passed since the previous pulse.
    pub open spec fn tick_fires(self, pressed: bool, now: u64) -> bool {
        &&& pressed
        &&& !self.press_edge(pressed)
        &&& self.last_ticked matches Some(tk) && now >= tk + TICK_DURATION
    }

    /// A qualifying event: a new press, the hold threshold being crossed, or
    /// an auto-repeat pulse while held.
    pub open spec fn qualifying(self, pressed: bool, now: u64) -> bool {
        ||| self.press_edge(pressed)
        ||| self.hold_fires(pressed, now)
        ||| self.tick_fires(pressed, now)
    }

    /// One step of the state machine: the state after polling the raw level
    /// `pressed` at time `now`.
    pub open spec fn poll_spec(self, pressed: bool, now: u64) -> Button {
        if !pressed {
            Button {
                last_state: false,
                last_pressed: None,
                last_ticked: None,
                is_hold: false,
                has_been_pressed: self.has_been_pressed,
            }
        } else {
            let b = self.after_edge(pressed, now);
            if self.hold_fires(pressed, now) {
                Button { is_hold: true, has_been_pressed: true, last_ticked: Some(now), ..b }
            } else if self.tick_fires(pressed, now) {
                Button { has_been_pressed: true, last_ticked: Some(now), ..b }
            } else {
                b
            }
        }
    }

    /// The state after `was_pressed` has consumed the activation flag.
    pub open spec fn consumed(self) -> Button {
        Button { has_been_pressed: false, ..self }
    }

    /// Create a new button in the released state.
    pub fn new() -> (b: Button)
        ensures
            b == Button::init(),
    {
        Button {
            last_state: false,
            last_pressed: None,
            last_ticked: None,
            is_hold: false,
            has_been_pressed: false,
        }
    }

    /// Advance the state machine once per frame with the raw pin level and
    /// the current time in milliseconds. The clock must be monotone: `now`
    /// may not lie before a timestamp stored by an earlier poll.
    pub fn poll(&mut self, pressed: bool, now: u64)
        requires
            old(self).wf(),
            old(self).stamps_le(now),
        ensures
            *final(self) == old(self).poll_spec(pressed, now),
            final(self).wf(),
            final(self).stamps_le(now),
    {
        if pressed {
            if !self.last_state {
                self.last_state = true;
                self.last_pressed = Some(now);
                self.last_ticked = None;
                self.is_hold = false;
                self.has_been_pressed = true;
            }
            match self.last_ticked {
                None => {
                    match self.last_pressed {
                        Some(t) => {
                            if now - t >= HOLD_DURATION {
                                self.last_ticked = Some(now);
                                self.has_been_pressed = true;
                                self.is_hold = true;
                            }
                        }
                        None => {}
                    }
                }
                Some(tk) => {
                    if now - tk >= TICK_DURATION {
                        self.last_ticked = Some(now);
                        self.has_been_pressed = true;
                    }
                }
            }
        } else {
            self.last_state = false;
            self.last_pressed = None;
            self.last_ticked = None;
            self.is_hold = false;
        }
    }

    /// Report and consume the pending activation. Returns true at most once
    /// per qualifying event: the flag is cleared by the call.
    pub fn was_pressed(&mut self) -> (r: bool)
        ensures
            r == old(self).has_been_pressed,
            *final(self) == old(self).consumed(),
    {
        if self.has_been_pressed {
            self.has_been_pressed = false;
            true
        } else {
            false
        }
    }

    /// Whether the button is currently held. A pure read.
    pub fn is_held(&self) -> (r: bool)
        ensures
            r == self.is_hold,
    {
        self.is_hold
    }
}

/// Law: polling raises the pending activation exactly on qualifying events;
/// a quiet poll leaves the flag as it was, so `was_pressed` keeps returning
/// false until the next new press, hold onset or repeat pulse.
pub proof fn lemma_activation_exactly_on_events(b: Button, pressed: bool, now: u64)
    requires
        b.wf(),
        b.stamps_le(now),
    ensures
        b.poll_spec(pressed, now).has_been_pressed == (b.has_been_pressed || b.qualifying(
            pressed,
            now,
        )),
{
}

/// Law: polling preserves well-formedness and timestamp freshness.
pub proof fn lemma_poll_preserves_wf(b: Button, pressed: bool, now: u64)
    requires
        b.wf(),
        b.stamps_le(now),
    ensures
        b.poll_spec(pressed, now).wf(),
        b.poll_spec(pressed, now).stamps_le(now),
{
}

/// Law: the button becomes held only when a press that started at least
/// `HOLD_DURATION` ago is still down; never on the frame the press starts.
pub proof fn lemma_hold_requires_threshold(b: Button, pressed: bool, now: u64)
    requires
        b.wf(),
        b.stamps_le(now),
        !b.is_hold,
        b.poll_spec(pressed, now).is_hold,
    ensures
        pressed,
        b.last_state,
        b.last_pressed matches Some(t) && now >= t + HOLD_DURATION,
{
}

/// Law: while held, a new activation pulse fires only once `TICK_DURATION`
/// has passed since the previous pulse.
pub proof fn lemma_tick_spacing(b: Button, pressed: bool, now: u64)
    requires
        b.wf(),
        b.stamps_le(now),
        b.is_hold,
        !b.has_been_pressed,
        b.poll_spec(pressed, now).has_been_pressed,
    ensures
        b.last_ticked matches Some(tk) && now >= tk + TICK_DURATION,
{
}

/// Fold of `poll_spec` over a sequence of (level, time) frames.
pub open spec fn poll_seq(b: Button, inputs: Seq<(bool, u64)>) -> Button
    decreases inputs.len(),
{
    if inputs.len() == 0 {
        b
    } else {
        poll_seq(b.poll_spec(inputs[0].0, inputs[0].1), inputs.drop_first())
    }
}

/// The frames in `inputs` are quiet for `b`: each is polled with a monotone
/// clock and none carries a qualifying event.
pub open spec fn quiet_run(b: Button, inputs: Seq<(bool, u64)>) -> bool
    decreases inputs.len(),
{
    inputs.len() == 0 || {
        &&& b.wf()
        &&& b.stamps_le(inputs[0].1)
        &&& !b.qualifying(inputs[0].0, inputs[0].1)
        &&& quiet_run(b.poll_spec(inputs[0].0, inputs[0].1), inputs.drop_first())
    }
}

/// Law: once consumed, an activation is not reported again over any run of
/// polls that carries no qualifying event.
pub proof fn lemma_consumed_stays_consumed(b: Button, inputs: Seq<(bool, u64)>)
    requires
        !b.has_been_pressed,
        quiet_run(b, inputs),
    ensures
        !poll_seq(b, inputs).has_been_pressed,
    decreases inputs.len(),
{
    if inputs.len() > 0 {
        lemma_activation_exactly_on_events(b, inputs[0].0, inputs[0].1);
        lemma_consumed_stays_consumed(b.poll_spec(inputs[0].0, inputs[0].1), inputs.drop_first());
    }
}

/// Law: discarding pending activations touches no other state, so it
/// keeps the panel well-formed and its timestamps in place.
pub proof fn lemma_cleared_keeps_wf(bs: ButtonSet, now: u64)
    requires
        bs.wf(),
        bs.stamps_le(now),
    ensures
        bs.cleared().wf(),
        bs.cleared().stamps_le(now),
{
}

/// The panel: a fixed named set of buttons, polled once per frame.
pub struct ButtonSet {
    pub a: Button,
    pub b: Button,
    pub c: Button,
    pub up: Button,
    pub down: Button,
    pub left: Button,
    pub right: Button,
}

/// Raw pin levels of the whole panel for one frame, as read by the caller.
#[derive(Clone, Copy)]
pub struct ButtonLevels {
    pub a: bool,
    pub b: bool,
    pub c: bool,
    pub up: bool,
    pub down: bool,
    pub left: bool,
    pub right: bool,
}

impl ButtonSet {
    /// All buttons are internally consistent.
    pub open spec fn wf(self) -> bool {
        &&& self.a.wf()
        &&& self.b.wf()
        &&& self.c.wf()
        &&& self.up.wf()
        &&& self.down.wf()
        &&& self.left.wf()
        &&& self.right.wf()
    }

    /// All stored timestamps lie at or before `now`.
    pub open spec fn stamps_le(self, now: u64) -> bool {
        &&& self.a.stamps_le(now)
        &&& self.b.stamps_le(now)
        &&& self.c.stamps_le(now)
        &&& self.up.stamps_le(now)
        &&& self.down.stamps_le(now)
        &&& self.left.stamps_le(now)
        &&& self.right.stamps_le(now)
    }

    /// The state of a freshly constructed panel.
    pub open spec fn init() -> ButtonSet {
        ButtonSet {
            a: Button::init(),
            b: Button::init(),
            c: Button::init(),
            up: Button::init(),
            down: Button::init(),
            left: Button::init(),
            right: Button::init(),
        }
    }

    /// The panel after polling every button with its level at time `now`.
    pub open spec fn poll_all_spec(self, levels: ButtonLevels, now: u64) -> ButtonSet {
        ButtonSet {
            a: self.a.poll_spec(levels.a, now),
            b: self.b.poll_spec(levels.b, now),
            c: self.c.poll_spec(levels.c, now),
            up: self.up.poll_spec(levels.up, now),
            down: self.down.poll_spec(levels.down, now),
            left: self.left.poll_spec(levels.left, now),
            right: self.right.poll_spec(levels.right, now),
        }
    }

    /// The panel with every pending activation cleared.
    pub open spec fn cleared(self) -> ButtonSet {
        ButtonSet {
            a: self.a.consumed(),
            b: self.b.consumed(),
            c: self.c.consumed(),
            up: self.up.consumed(),
            down: self.down.consumed(),
            left: self.left.consumed(),
            right: self.right.consumed(),
        }
    }

    /// Create a panel with every button in the released state.
    pub fn new() -> (s: ButtonSet)
        ensures
            s == ButtonSet::init(),
    {
        ButtonSet {
            a: Button::new(),
            b: Button::new(),
            c: Button::new(),
            up: Button::new(),
            down: Button::new(),
            left: Button::new(),
            right: Button::new(),
        }
    }

    /// Poll every button once with this frame's raw levels, before any view
    /// update.
    #[verifier::rlimit(60)]
    pub fn poll_all(&mut self, levels: ButtonLevels, now: u64)
        requires
            old(self).wf(),
            old(self).stamps_le(now),
        ensures
            *final(self) == old(self).poll_all_spec(levels, now),
            final(self).wf(),
            final(self).stamps_le(now),
    {
        self.a.poll(levels.a, now);
        self.b.poll(levels.b, now);
        self.c.poll(levels.c, now);
        self.up.poll(levels.up, now);
        self.down.poll(levels.down, now);
        self.left.poll(levels.left, now);
        self.right.poll(levels.right, now);
    }

    /// Discard every pending activation, after the active view has consumed
    /// events for this frame, so each activation reaches at most one update.
    pub fn flush(&mut self)
        ensures
            *final(self) == old(self).cleared(),
    {
        self.a.was_pressed();
        self.b.was_pressed();
        self.c.was_pressed();
        self.up.was_pressed();
        self.down.was_pressed();
        self.left.was_pressed();
        self.right.was_pressed();
    }
}

} // verus!
