use vstd::prelude::*;

use crate::click_toggle::ClickToggle;

verus! {

/// A toggle edge: a bound control went from released to pressed.
#[derive(Clone, Copy, PartialEq, Eq, Debug, Structural)]
pub enum Click {
    Left,
    Right,
}

/// One low-level input event, as far as the relay reads it.
#[derive(Clone, Copy, PartialEq, Eq, Debug, Structural)]
pub struct RawEvent {
    pub kind: u16,
    pub code: u16,
    pub value: i32,
}

/// The binding configuration of a run.
#[derive(Clone, Copy, PartialEq, Eq, Debug, Structural)]
pub struct State {
    pub left_bind: u16,
    pub right_bind: u16,
    /// Milliseconds between the release of one cycle and the press of the next.
    pub cooldown_ms: u64,
    /// Milliseconds between a synthetic press and its release.
    pub release_cooldown_ms: u64,
    pub find_keycodes: bool,
    pub beep: bool,
}

/// What the capture loop does with one event.
#[derive(Clone, Copy, PartialEq, Eq, Debug, Structural)]
pub struct Capture {
    /// The physical press state after the event.
    pub physical: ClickToggle,
    /// Send a left edge to the driver.
    pub left_edge: bool,
    /// Send a right edge to the driver.
    pub right_edge: bool,
    /// Write the event unchanged to the virtual device.
    pub forward: bool,
    /// Report the event's code (diagnostic mode).
    pub report: bool,
}

/// How the driver waits for the next edge.
#[derive(Clone, Copy, PartialEq, Eq, Debug, Structural)]
pub enum WaitMode {
    /// Block until an edge arrives.
    Block,
    /// Take an edge if one is waiting, and go on otherwise.
    Poll,
}

/// What the driver does in one cycle.
#[derive(Clone, Copy, PartialEq, Eq, Debug, Structural)]
pub struct Cycle {
    /// The logical state after the received edge, if any.
    pub state: ClickToggle,
    /// The state changed: report it.
    pub announce: bool,
    /// Sound the audible signal.
    pub beep: bool,
    /// Press and release the left button in this cycle.
    pub left: bool,
    /// Press and release the right button in this cycle.
    pub right: bool,
    /// Milliseconds to hold the buttons, or none when no pause is configured.
    pub hold_ms: Option<u64>,
    /// Milliseconds to wait after the release.
    pub cooldown_ms: u64,
}

/// The logical state after an edge.
pub open spec fn spec_apply_click(logical: ClickToggle, click: Click) -> ClickToggle {
    match click {
        Click::Left => logical.spec_toggle_left(),
        Click::Right => logical.spec_toggle_right(),
    }
}

/// The driver blocks only while nothing is latched.
pub open spec fn spec_wait_mode(logical: ClickToggle) -> WaitMode {
    if logical == ClickToggle::Neither {
        WaitMode::Block
    } else {
        WaitMode::Poll
    }
}

/// Applies one edge to the logical auto-click state.
pub fn apply_click(logical: ClickToggle, click: Click) -> (r: ClickToggle)
    ensures
        r == spec_apply_click(logical, click),
{
    match click {
        Click::Left => logical.toggle_left(),
        Click::Right => logical.toggle_right(),
    }
}

/// How the driver waits in the logical state `logical`.
pub fn wait_mode(logical: ClickToggle) -> (r: WaitMode)
    ensures
        r == spec_wait_mode(logical),
{
    match logical {
        ClickToggle::Neither => WaitMode::Block,
        ClickToggle::Left | ClickToggle::Right | ClickToggle::Both => WaitMode::Poll,
    }
}

impl State {
    pub open spec fn binds_left(self, code: u16) -> bool {
        code == self.left_bind
    }

    pub open spec fn binds_right(self, code: u16) -> bool {
        code == self.right_bind
    }

    /// The physical state after the left-bound rule has seen `e`.
    pub open spec fn after_left(self, physical: ClickToggle, e: RawEvent) -> ClickToggle {
        if self.binds_left(e.code) {
            physical.spec_set_left(e.value == 1)
        } else {
            physical
        }
    }

    /// What the capture loop does with `e` in the physical state `physical`.
    pub open spec fn spec_capture(self, physical: ClickToggle, e: RawEvent) -> Capture {
        let pressed = e.value == 1;
        let mid = self.after_left(physical, e);
        Capture {
            physical: if self.binds_right(e.code) {
                mid.spec_set_right(pressed)
            } else {
                mid
            },
            left_edge: self.binds_left(e.code) && pressed && !physical.left_on()
                && !self.find_keycodes,
            right_edge: self.binds_right(e.code) && pressed && !mid.right_on()
                && !self.find_keycodes,
            forward: !self.binds_left(e.code) && !self.binds_right(e.code),
            report: self.find_keycodes && pressed,
        }
    }

    /// The physical state after the capture loop has seen `events`, in order.
    pub open spec fn physical_after(self, physical: ClickToggle, events: Seq<RawEvent>) -> ClickToggle
        decreases events.len(),
    {
        if events.len() == 0 {
            physical
        } else {
            let before = self.physical_after(physical, events.drop_last());
            self.spec_capture(before, events.last()).physical
        }
    }

    /// What the driver does in one cycle, from the logical state and the edge it
    /// received, if any.
    pub open spec fn spec_cycle(self, logical: ClickToggle, received: Option<Click>) -> Cycle {
        let state = match received {
            Some(click) => spec_apply_click(logical, click),
            None => logical,
        };
        Cycle {
            state,
            announce: received is Some,
            beep: received is Some && self.beep,
            left: state.left_on(),
            right: state.right_on(),
            hold_ms: if self.release_cooldown_ms == 0 {
                None
            } else {
                Some(self.release_cooldown_ms)
            },
            cooldown_ms: self.cooldown_ms,
        }
    }

    /// The configuration: cooldowns in milliseconds, the two bound codes and the
    /// two flags.
    pub fn new(
        cooldown: u64,
        cooldown_press_release: u64,
        left_bind: u16,
        right_bind: u16,
        find_keycodes: bool,
        beep: bool,
    ) -> (r: State)
        ensures
            r == (State {
                left_bind,
                right_bind,
                cooldown_ms: cooldown,
                release_cooldown_ms: cooldown_press_release,
                find_keycodes,
                beep,
            }),
    {
        State {
            left_bind,
            right_bind,
            cooldown_ms: cooldown,
            release_cooldown_ms: cooldown_press_release,
            find_keycodes,
            beep,
        }
    }

    /// Classifies one event read from the physical device.
    ///
    /// A press on a bound code whose physical bit was clear gives an edge (outside
    /// diagnostic mode); every event on a bound code updates the physical press
    /// state and is held back; every other event is forwarded and leaves the
    /// physical press state as it was.
    pub fn capture(&self, physical: ClickToggle, event: RawEvent) -> (r: Capture)
        ensures
            r == self.spec_capture(physical, event),
    {
        let pressed = event.value == 1;
        let mut states = physical;
        let mut used = false;
        let mut left_edge = false;
        let mut right_edge = false;
        if event.code == self.left_bind {
            left_edge = pressed && states.not_left() && !self.find_keycodes;
            states = states.set_left(pressed);
            used = true;
        }
        if event.code == self.right_bind {
            right_edge = pressed && states.not_right() && !self.find_keycodes;
            states = states.set_right(pressed);
            used = true;
        }
        Capture {
            physical: states,
            left_edge,
            right_edge,
            forward: !used,
            report: self.find_keycodes && pressed,
        }
    }

    /// Classifies a batch of events, each in turn, in the order the device
    /// delivered them; returns the final physical press state and one decision
    /// per event.
    pub fn capture_batch(&self, physical: ClickToggle, events: &Vec<RawEvent>) -> (r: (
        ClickToggle,
        Vec<Capture>,
    ))
        ensures
            r.0 == self.physical_after(physical, events@),
            r.1@.len() == events@.len(),
            forall|i: int|
                0 <= i < events@.len() ==> #[trigger] r.1@[i] == self.spec_capture(
                    self.physical_after(physical, events@.take(i)),
                    events@[i],
                ),
    {
        let mut states = physical;
        let mut out: Vec<Capture> = Vec::new();
        let mut i: usize = 0;
        while i < events.len()
            invariant
                i <= events@.len(),
                out@.len() == i,
                states == self.physical_after(physical, events@.take(i as int)),
                forall|j: int|
                    0 <= j < i ==> #[trigger] out@[j] == self.spec_capture(
                        self.physical_after(physical, events@.take(j)),
                        events@[j],
                    ),
            decreases events@.len() - i,
        {
            let c = self.capture(states, events[i]);
            proof {
                assert(events@.take(i + 1).drop_last() =~= events@.take(i as int));
                assert(events@.take(i + 1).last() == events@[i as int]);
            }
            out.push(c);
            states = c.physical;
            i = i + 1;
        }
        proof {
            assert(events@.take(events@.len() as int) =~= events@);
        }
        (states, out)
    }

    /// Decides one cycle of the driver: applies the received edge, if any, and
    /// says which buttons to press and release and how long to pause.
    pub fn cycle(&self, logical: ClickToggle, received: Option<Click>) -> (r: Cycle)
        ensures
            r == self.spec_cycle(logical, received),
    {
        let (state, announce) = match received {
            Some(click) => (apply_click(logical, click), true),
            None => (logical, false),
        };
        let hold_ms = if self.release_cooldown_ms == 0 {
            None
        } else {
            Some(self.release_cooldown_ms)
        };
        Cycle {
            state,
            announce,
            beep: announce && self.beep,
            left: !state.not_left(),
            right: !state.not_right(),
            hold_ms,
            cooldown_ms: self.cooldown_ms,
        }
    }
}

/// An event on a code that is bound to neither button is forwarded unchanged,
/// gives no edge and leaves the physical press state as it was.
pub proof fn lemma_pass_through(s: State, physical: ClickToggle, e: RawEvent)
    requires
        e.code != s.left_bind,
        e.code != s.right_bind,
    ensures
        s.spec_capture(physical, e).forward,
        s.spec_capture(physical, e).physical == physical,
        !s.spec_capture(physical, e).left_edge,
        !s.spec_capture(physical, e).right_edge,
{
}

/// Two presses in a row on the left-bound code give at most one left edge: the
/// first gives one exactly when the physical left bit was clear (outside
/// diagnostic mode), the second gives none.
pub proof fn lemma_repeat_press_single_edge(
    s: State,
    physical: ClickToggle,
    first: RawEvent,
    second: RawEvent,
)
    requires
        first.code == s.left_bind,
        second.code == s.left_bind,
        first.value == 1,
        second.value == 1,
    ensures
        s.spec_capture(physical, first).left_edge == (!physical.left_on() && !s.find_keycodes),
        !s.spec_capture(s.spec_capture(physical, first).physical, second).left_edge,
{
}

/// A press on the right-bound code directly after another press on it gives no
/// second right edge.
pub proof fn lemma_repeat_press_single_right_edge(
    s: State,
    physical: ClickToggle,
    first: RawEvent,
    second: RawEvent,
)
    requires
        first.code == s.right_bind,
        second.code == s.right_bind,
        first.value == 1,
        second.value == 1,
    ensures
        s.spec_capture(physical, first).right_edge == (!physical.right_on() && !s.find_keycodes),
        !s.spec_capture(s.spec_capture(physical, first).physical, second).right_edge,
{
}

/// A cycle in which no edge arrived keeps the logical state, fires exactly the
/// buttons whose bits are set, and announces nothing.
pub proof fn lemma_cycle_without_edge(s: State, logical: ClickToggle)
    ensures
        s.spec_cycle(logical, None).state == logical,
        s.spec_cycle(logical, None).left == logical.left_on(),
        s.spec_cycle(logical, None).right == logical.right_on(),
        !s.spec_cycle(logical, None).announce,
{
}

} // verus!
