//! The gesture interpretation state machine.
//!
//! The machine consumes one raw touchpad event at a time — a position
//! sample, a finger transition or a periodic timestamp tick — together with
//! an independent numlock-indicator signal, updates its state and returns
//! the side effects to perform as a list of [`Action`] values. Performing
//! the actions (virtual key events, brightness writes, device grabs,
//! launching the calculator) is the caller's business; the machine itself
//! never blocks and never fails.

use vstd::prelude::*;

use crate::brightness::{spec_next, Brightness};
use crate::config::Config;
use crate::geometry::{spec_dist_sq, Point};
use crate::keys::Key;
use crate::layout::{spec_needs_multikey, NumpadLayout};
use crate::util::{spec_elapsed, TimeVal};

verus! {

/// How long a finger must rest in a zone before the zone's action fires,
/// in microseconds; also the re-arm window after a synthesized lift.
pub const HOLD_DURATION_MICROS: u64 = 250_000;

/// Squared distance a finger must move for a stationary tap to count as a
/// drag.
pub const TAP_JITTER_DIST: i128 = 10_000;

/// Squared distance a finger must be dragged across the calculator zone to
/// trigger the calculator gesture.
pub const CALC_DRAG_DIST: i128 = 90_000;

/// The finger phase.
#[derive(Clone, Copy, Debug, PartialEq, Eq, Structural)]
pub enum FingerState {
    Lifted,
    TouchStart,
    Touching,
}

impl Default for FingerState {
    fn default() -> (r: Self)
        ensures
            r == FingerState::Lifted,
    {
        FingerState::Lifted
    }
}

/// The key considered pressed at the moment, if any.
#[derive(Clone, Copy, Debug, PartialEq, Eq, Structural)]
pub enum CurKey {
    NoKey,
    /// The numlock toggle zone.
    Numlock,
    /// The calculator zone.
    Calc,
    /// A key of the numpad grid.
    Numpad(Key),
}

impl CurKey {
    pub fn reset(&mut self)
        ensures
            *final(self) == CurKey::NoKey,
    {
        *self = Self::NoKey;
    }
}

impl Default for CurKey {
    fn default() -> (r: Self)
        ensures
            r == CurKey::NoKey,
    {
        Self::NoKey
    }
}

/// The mutable state of the machine.
#[derive(Clone, Copy, Debug, PartialEq, Eq, Structural)]
pub struct TouchpadState {
    /// Current finger position.
    pub pos: Point,
    /// Current finger phase.
    pub finger_state: FingerState,
    /// Whether numlock is considered active.
    pub numlock: bool,
    /// The key currently considered pressed.
    pub cur_key: CurKey,
    /// When the current tap began.
    pub tap_started_at: TimeVal,
    /// Where the current tap began.
    pub tap_start_pos: Point,
    /// This tap has already been outside the numlock zone.
    pub tapped_outside_numlock_bbox: bool,
    /// This tap has already exceeded the drag-jitter threshold.
    pub finger_dragged_too_much: bool,
    /// When a dragged finger was really lifted, for re-arming.
    pub dragged_finger_lifted_at: TimeVal,
    /// The non-zero backlight level to restore when numlock turns on.
    pub brightness: Brightness,
    /// Whether the calculator is considered open.
    pub calc_open: bool,
}

/// The state the machine starts in: finger lifted, numlock off, nothing
/// pressed, all clocks at zero.
pub open spec fn spec_initial_state() -> TouchpadState {
    TouchpadState {
        pos: Point { x: 0, y: 0 },
        finger_state: FingerState::Lifted,
        numlock: false,
        cur_key: CurKey::NoKey,
        tap_started_at: TimeVal { tv_sec: 0, tv_usec: 0 },
        tap_start_pos: Point { x: 0, y: 0 },
        tapped_outside_numlock_bbox: false,
        finger_dragged_too_much: false,
        dragged_finger_lifted_at: TimeVal { tv_sec: 0, tv_usec: 0 },
        brightness: Brightness::Full,
        calc_open: false,
    }
}

impl TouchpadState {
    /// The recorded timestamps are well-formed clock readings.
    pub open spec fn spec_wf(self) -> bool {
        self.tap_started_at.spec_wf() && self.dragged_finger_lifted_at.spec_wf()
    }

    /// Flip the numlock flag and report the new value.
    pub fn toggle_numlock(&mut self) -> (r: bool)
        ensures
            *final(self) == (TouchpadState { numlock: !old(self).numlock, ..*old(self) }),
            r == final(self).numlock,
    {
        self.numlock = !self.numlock;
        self.numlock
    }
}

impl Default for TouchpadState {
    fn default() -> (r: Self)
        ensures
            r == spec_initial_state(),
    {
        Self {
            pos: Point { x: 0, y: 0 },
            finger_state: FingerState::Lifted,
            numlock: false,
            cur_key: CurKey::NoKey,
            tap_started_at: TimeVal { tv_sec: 0, tv_usec: 0 },
            tap_start_pos: Point { x: 0, y: 0 },
            tapped_outside_numlock_bbox: false,
            finger_dragged_too_much: false,
            dragged_finger_lifted_at: TimeVal { tv_sec: 0, tv_usec: 0 },
            brightness: Brightness::Full,
            calc_open: false,
        }
    }
}

/// One raw event from the touchpad stream.
#[derive(Clone, Copy, Debug, PartialEq, Eq, Structural)]
pub enum TouchpadEvent {
    /// An absolute x position sample.
    PositionX(i32),
    /// An absolute y position sample.
    PositionY(i32),
    /// A finger-presence transition: value 1 is finger down, 0 is finger
    /// up; other values are ignored.
    Finger { value: i32, time: TimeVal },
    /// A periodic timestamp-only tick, the machine's clock source.
    Timestamp { time: TimeVal },
    /// Any other event on the stream; it still triggers the jitter check.
    Other,
}

/// A side effect the caller must perform.
#[derive(Clone, Copy, Debug, PartialEq, Eq, Structural)]
pub enum Action {
    /// Press one emulated key.
    KeyDown(Key),
    /// Release one emulated key.
    KeyUp(Key),
    /// Press two emulated keys together, in this order, as one gesture.
    MultiKeyDown(Key, Key),
    /// Release two emulated keys together.
    MultiKeyUp(Key, Key),
    /// Press and release one emulated key.
    KeyPress(Key),
    /// Set the touchpad backlight to this level.
    SetBrightness(Brightness),
    /// Grab the touchpad device exclusively.
    Grab,
    /// Release an exclusive grab of the touchpad device.
    Ungrab,
    /// Run the configured calculator start action.
    RunCalcStart,
    /// Run the configured calculator stop action.
    RunCalcStop,
}

/// The action that presses `key`: composite keys press their pair.
pub open spec fn spec_keydown_action(key: Key) -> Action {
    if spec_needs_multikey(key) {
        Action::MultiKeyDown(Key::LeftShift, key)
    } else {
        Action::KeyDown(key)
    }
}

/// The action that releases `key`: composite keys release their pair.
pub open spec fn spec_keyup_action(key: Key) -> Action {
    if spec_needs_multikey(key) {
        Action::MultiKeyUp(Key::LeftShift, key)
    } else {
        Action::KeyUp(key)
    }
}

/// Toggling numlock from the touchpad: turning on restores the stored
/// backlight level and leaves any grab alone; turning off darkens the
/// backlight and releases a possibly outstanding grab. Either way exactly
/// one numlock key-press keeps the system's numlock bit in sync.
pub open spec fn spec_toggle_numlock(s: TouchpadState) -> (TouchpadState, Seq<Action>) {
    let s1 = TouchpadState { numlock: !s.numlock, ..s };
    if s1.numlock {
        (s1, seq![Action::SetBrightness(s.brightness), Action::KeyPress(Key::NumLock)])
    } else {
        (
            s1,
            seq![
                Action::SetBrightness(Brightness::Zero),
                Action::Ungrab,
                Action::KeyPress(Key::NumLock),
            ],
        )
    }
}

/// Resynchronizing with the system's numlock indicator: the system already
/// changed its numlock bit, so no numlock key-press is emitted back.
pub open spec fn spec_handle_numlock_pressed(s: TouchpadState, val: i32) -> (
    TouchpadState,
    Seq<Action>,
) {
    if val == 0 {
        (
            TouchpadState { numlock: false, ..s },
            seq![Action::Ungrab, Action::SetBrightness(Brightness::Zero)],
        )
    } else {
        (TouchpadState { numlock: true, ..s }, seq![Action::SetBrightness(s.brightness)])
    }
}

/// The calculator action a completed drag gesture runs: opening runs the
/// start action; closing runs the stop action, or the start action again
/// when no stop action is configured.
pub open spec fn spec_calc_toggle_action(config: Config, calc_open: bool) -> Action {
    if !calc_open {
        Action::RunCalcStart
    } else if config.calc_stop_command is Some {
        Action::RunCalcStop
    } else {
        Action::RunCalcStart
    }
}

/// End of a tap: a long enough drag on the calculator zone toggles the
/// calculator; a numpad key still held is released; the current key clears
/// and the finger phase returns to lifted.
pub open spec fn spec_on_lift(config: Config, s: TouchpadState) -> (TouchpadState, Seq<Action>) {
    let calc_fired = s.cur_key is Calc && spec_dist_sq(s.pos, s.tap_start_pos) >= CALC_DRAG_DIST;
    let calc_acts = if calc_fired {
        seq![spec_calc_toggle_action(config, s.calc_open)]
    } else {
        Seq::<Action>::empty()
    };
    let calc_open1 = if calc_fired {
        !s.calc_open
    } else {
        s.calc_open
    };
    let key_acts = match s.cur_key {
        CurKey::Numpad(k) => if s.finger_state is Touching {
            seq![spec_keyup_action(k)]
        } else {
            Seq::<Action>::empty()
        },
        _ => Seq::<Action>::empty(),
    };
    (
        TouchpadState {
            cur_key: CurKey::NoKey,
            finger_state: FingerState::Lifted,
            calc_open: calc_open1,
            ..s
        },
        calc_acts + key_acts,
    )
}

/// Start of a tap: from a lifted finger the tap clock and position are
/// recorded and the sticky flags cleared; with numlock active a hit on the
/// numpad grid grabs the device and presses the key. Independently, a
/// position inside the numlock or calculator zone forces that zone to be
/// the current key; anywhere else the tap is marked as outside the numlock
/// zone.
pub open spec fn spec_on_tap(layout: NumpadLayout, s: TouchpadState, time: TimeVal) -> (
    TouchpadState,
    Seq<Action>,
) {
    let started = if s.finger_state is Lifted {
        let s_start = TouchpadState {
            finger_state: FingerState::TouchStart,
            tap_started_at: time,
            tap_start_pos: s.pos,
            tapped_outside_numlock_bbox: false,
            finger_dragged_too_much: false,
            ..s
        };
        if s.numlock {
            match layout.spec_cell(s.pos) {
                Some(key) => (
                    TouchpadState {
                        cur_key: CurKey::Numpad(key),
                        finger_state: FingerState::Touching,
                        ..s_start
                    },
                    seq![Action::Grab, spec_keydown_action(key)],
                ),
                None => (TouchpadState { cur_key: CurKey::NoKey, ..s_start }, Seq::<Action>::empty()),
            }
        } else {
            (s_start, Seq::<Action>::empty())
        }
    } else {
        (s, Seq::<Action>::empty())
    };
    let s1 = started.0;
    let s2 = if layout.numlock_bbox.spec_contains(s1.pos) {
        TouchpadState { finger_state: FingerState::Touching, cur_key: CurKey::Numlock, ..s1 }
    } else if layout.calc_bbox.spec_contains(s1.pos) {
        TouchpadState {
            finger_state: FingerState::Touching,
            cur_key: CurKey::Calc,
            tapped_outside_numlock_bbox: true,
            ..s1
        }
    } else {
        TouchpadState { tapped_outside_numlock_bbox: true, ..s1 }
    };
    (s2, started.1)
}

/// A periodic tick: a finger still resting in the numlock zone past the
/// hold threshold toggles numlock once, re-arming the phase so a continued
/// hold does not toggle again; a finger resting on the calculator zone with
/// numlock active past the same threshold cycles the backlight once and
/// clears the current key for the same reason.
pub open spec fn spec_tick(layout: NumpadLayout, s: TouchpadState, time: TimeVal) -> (
    TouchpadState,
    Seq<Action>,
) {
    let phase1 = if s.finger_state is Touching && !s.tapped_outside_numlock_bbox {
        if layout.numlock_bbox.spec_contains(s.pos) {
            if spec_elapsed(time, s.tap_started_at) >= HOLD_DURATION_MICROS {
                let toggled = spec_toggle_numlock(s);
                (TouchpadState { finger_state: FingerState::TouchStart, ..toggled.0 }, toggled.1)
            } else {
                (s, Seq::<Action>::empty())
            }
        } else {
            (TouchpadState { tapped_outside_numlock_bbox: true, ..s }, Seq::<Action>::empty())
        }
    } else {
        (s, Seq::<Action>::empty())
    };
    let s1 = phase1.0;
    let phase2 = if s1.numlock && s1.cur_key is Calc && layout.calc_bbox.spec_contains(s1.pos)
        && spec_elapsed(time, s1.tap_started_at) >= HOLD_DURATION_MICROS {
        (
            TouchpadState { brightness: spec_next(s1.brightness), cur_key: CurKey::NoKey, ..s1 },
            seq![Action::SetBrightness(spec_next(s1.brightness))],
        )
    } else {
        (s1, Seq::<Action>::empty())
    };
    (phase2.0, phase1.1 + phase2.1)
}

/// The drag-jitter check, run after every event: with numlock active, a
/// touching finger away from the calculator zone that has moved beyond the
/// jitter threshold ends the tap at once — the grab is released and a lift
/// is synthesized without waiting for the real finger-up.
pub open spec fn spec_jitter(config: Config, s: TouchpadState) -> (TouchpadState, Seq<Action>) {
    if s.numlock && s.finger_state is Touching && !(s.cur_key is Calc) && spec_dist_sq(
        s.tap_start_pos,
        s.pos,
    ) > TAP_JITTER_DIST {
        let s1 = TouchpadState { finger_dragged_too_much: true, ..s };
        let lifted = spec_on_lift(config, s1);
        (lifted.0, seq![Action::Ungrab] + lifted.1)
    } else {
        (s, Seq::<Action>::empty())
    }
}

/// Resolving startup skew between the system's numlock indicator and the
/// configured start state: an indicator that is already on is either
/// pressed away (when numlock must start off) or adopted as the local
/// state; an unreadable or dark indicator changes nothing.
pub open spec fn spec_initialize_numlock(
    config: Config,
    s: TouchpadState,
    init_numlock: Option<i32>,
) -> (TouchpadState, Seq<Action>) {
    match init_numlock {
        Some(val) => if val != 0 {
            if config.disable_numlock_on_start {
                (s, seq![Action::KeyPress(Key::NumLock)])
            } else {
                spec_handle_numlock_pressed(s, val)
            }
        } else {
            (s, Seq::<Action>::empty())
        },
        None => (s, Seq::<Action>::empty()),
    }
}

/// The timestamps an event carries are well-formed and no earlier than the
/// timestamps the machine recorded from earlier events: the event streams
/// come from one monotonic clock.
pub open spec fn spec_event_time_ok(ev: TouchpadEvent, s: TouchpadState) -> bool {
    match ev {
        TouchpadEvent::Finger { value: _, time } => time.spec_wf() && time.spec_ge(s.tap_started_at)
            && time.spec_ge(s.dragged_finger_lifted_at),
        TouchpadEvent::Timestamp { time } => time.spec_wf() && time.spec_ge(s.tap_started_at)
            && time.spec_ge(s.dragged_finger_lifted_at),
        _ => true,
    }
}

/// The gesture state machine: the layout and configuration it was built
/// with, and its mutable state.
pub struct Numpad {
    pub layout: NumpadLayout,
    pub config: Config,
    pub state: TouchpadState,
}

impl Numpad {
    /// A usable machine: its layout is usable and its recorded timestamps
    /// are well-formed.
    pub open spec fn wf(self) -> bool {
        self.layout.spec_wf() && self.state.spec_wf()
    }

    /// What one touchpad event does: the event's own effect, followed by
    /// the drag-jitter check on the resulting state.
    pub open spec fn spec_handle_event(self, ev: TouchpadEvent) -> (TouchpadState, Seq<Action>) {
        let s = self.state;
        let stepped = match ev {
            TouchpadEvent::PositionX(v) => (
                TouchpadState { pos: Point { x: v, y: s.pos.y }, ..s },
                Seq::<Action>::empty(),
            ),
            TouchpadEvent::PositionY(v) => (
                TouchpadState { pos: Point { x: s.pos.x, y: v }, ..s },
                Seq::<Action>::empty(),
            ),
            TouchpadEvent::Finger { value, time } => {
                if value == 0 {
                    if !s.finger_dragged_too_much {
                        spec_on_lift(self.config, s)
                    } else {
                        (TouchpadState { dragged_finger_lifted_at: time, ..s }, Seq::<Action>::empty())
                    }
                } else if value == 1 {
                    if !s.finger_dragged_too_much || spec_elapsed(time, s.dragged_finger_lifted_at)
                        >= HOLD_DURATION_MICROS {
                        spec_on_tap(self.layout, s, time)
                    } else {
                        (s, Seq::<Action>::empty())
                    }
                } else {
                    (s, Seq::<Action>::empty())
                }
            },
            TouchpadEvent::Timestamp { time } => spec_tick(self.layout, s, time),
            TouchpadEvent::Other => (s, Seq::<Action>::empty()),
        };
        let checked = spec_jitter(self.config, stepped.0);
        (checked.0, stepped.1 + checked.1)
    }

    /// A fresh machine over a usable layout, in the initial state.
    pub fn new(layout: NumpadLayout, config: Config) -> (r: Self)
        requires
            layout.spec_wf(),
        ensures
            r.wf(),
            r.layout == layout,
            r.config == config,
            r.state == spec_initial_state(),
    {
        Self { layout, config, state: TouchpadState::default() }
    }

    /// Toggle numlock because the user pressed the numlock zone.
    fn toggle_numlock(&mut self) -> (acts: Vec<Action>)
        ensures
            final(self).layout == old(self).layout,
            final(self).config == old(self).config,
            (final(self).state, acts@) == spec_toggle_numlock(old(self).state),
    {
        let mut acts: Vec<Action> = Vec::new();
        if self.state.toggle_numlock() {
            acts.push(Action::SetBrightness(self.state.brightness));
            // no grab here: the pointer stays usable while numlock is
            // active and no numpad key is pressed
        } else {
            acts.push(Action::SetBrightness(Brightness::Zero));
            // a grab may still be outstanding; release it
            acts.push(Action::Ungrab);
        }
        // tell the system to toggle its numlock bit too
        acts.push(Action::KeyPress(Key::NumLock));
        proof {
            assert(acts@ =~= spec_toggle_numlock(old(self).state).1);
        }
        acts
    }

    /// Adopt a numlock-indicator change coming from the system itself; the
    /// system's numlock bit already changed, so no key-press echoes back.
    pub fn handle_numlock_pressed(&mut self, val: i32) -> (acts: Vec<Action>)
        ensures
            final(self).layout == old(self).layout,
            final(self).config == old(self).config,
            (final(self).state, acts@) == spec_handle_numlock_pressed(old(self).state, val),
    {
        let mut acts: Vec<Action> = Vec::new();
        if val == 0 {
            self.state.numlock = false;
            // a grab may still be outstanding; release it
            acts.push(Action::Ungrab);
            acts.push(Action::SetBrightness(Brightness::Zero));
        } else {
            self.state.numlock = true;
            acts.push(Action::SetBrightness(self.state.brightness));
        }
        proof {
            assert(acts@ =~= spec_handle_numlock_pressed(old(self).state, val).1);
        }
        acts
    }

    /// Resolve startup skew against the initial numlock-indicator reading,
    /// if one could be taken.
    pub fn initialize_numlock(&mut self, init_numlock: Option<i32>) -> (acts: Vec<Action>)
        ensures
            final(self).layout == old(self).layout,
            final(self).config == old(self).config,
            (final(self).state, acts@) == spec_initialize_numlock(
                old(self).config,
                old(self).state,
                init_numlock,
            ),
    {
        let mut acts: Vec<Action> = Vec::new();
        match init_numlock {
            Some(val) => {
                if val != 0 {
                    if self.config.disable_numlock_on_start() {
                        // numlock must start off: press the system's numlock
                        // bit away and keep the local flag off
                        acts.push(Action::KeyPress(Key::NumLock));
                        proof {
                            assert(acts@ =~= spec_initialize_numlock(
                                old(self).config,
                                old(self).state,
                                init_numlock,
                            ).1);
                        }
                        return acts;
                    } else {
                        return self.handle_numlock_pressed(val);
                    }
                }
                acts
            },
            // the indicator could not be read at all; the caller reports it
            None => acts,
        }
    }

    /// The calculator-launch action.
    fn start_calc(&self) -> (a: Action)
        ensures
            a == Action::RunCalcStart,
    {
        Action::RunCalcStart
    }

    /// The calculator-close action; with no stop action configured, the
    /// start action is run again.
    fn stop_calc(&self) -> (a: Action)
        ensures
            a == spec_calc_toggle_action(self.config, true),
    {
        if self.config.calc_stop_command().is_some() {
            Action::RunCalcStop
        } else {
            Action::RunCalcStart
        }
    }

    /// End the current tap.
    fn on_lift(&mut self) -> (acts: Vec<Action>)
        ensures
            final(self).layout == old(self).layout,
            final(self).config == old(self).config,
            (final(self).state, acts@) == spec_on_lift(old(self).config, old(self).state),
    {
        let mut acts: Vec<Action> = Vec::new();
        if self.state.cur_key == CurKey::Calc && self.state.pos.dist_sq(self.state.tap_start_pos)
            >= CALC_DRAG_DIST {
            if !self.state.calc_open {
                let a = self.start_calc();
                acts.push(a);
            } else {
                let a = self.stop_calc();
                acts.push(a);
            }
            self.state.calc_open = !self.state.calc_open;
        }
        if self.state.finger_state == FingerState::Touching {
            if let CurKey::Numpad(key) = self.state.cur_key {
                if self.layout.needs_multikey(key) {
                    let mk: [Key; 2] = self.layout.multikeys(key);
                    acts.push(Action::MultiKeyUp(mk[0], mk[1]));
                } else {
                    acts.push(Action::KeyUp(key));
                }
                // no ungrab here: releasing the grab now would make the
                // pointer jump; only a drag releases it
            }
        }
        self.state.cur_key.reset();
        self.state.finger_state = FingerState::Lifted;
        proof {
            assert(acts@ =~= spec_on_lift(old(self).config, old(self).state).1);
        }
        acts
    }

    /// Begin a tap, or re-test the zones for a finger that never lifted.
    fn on_tap(&mut self, time: TimeVal) -> (acts: Vec<Action>)
        requires
            old(self).layout.spec_wf(),
        ensures
            final(self).layout == old(self).layout,
            final(self).config == old(self).config,
            (final(self).state, acts@) == spec_on_tap(old(self).layout, old(self).state, time),
    {
        let mut acts: Vec<Action> = Vec::new();
        if self.state.finger_state == FingerState::Lifted {
            self.state.finger_state = FingerState::TouchStart;
            self.state.tap_started_at = time;
            self.state.tap_start_pos = self.state.pos;
            self.state.tapped_outside_numlock_bbox = false;
            self.state.finger_dragged_too_much = false;
            if self.state.numlock {
                self.state.cur_key = match self.layout.get_key(self.state.pos) {
                    Some(key) => {
                        // stop the pointer from moving along with the finger
                        acts.push(Action::Grab);
                        self.state.finger_state = FingerState::Touching;
                        if self.layout.needs_multikey(key) {
                            let mk: [Key; 2] = self.layout.multikeys(key);
                            acts.push(Action::MultiKeyDown(mk[0], mk[1]));
                        } else {
                            acts.push(Action::KeyDown(key));
                        }
                        CurKey::Numpad(key)
                    },
                    None => CurKey::NoKey,
                };
            }
        }
        if self.layout.in_numlock_bbox(self.state.pos) {
            self.state.finger_state = FingerState::Touching;
            self.state.cur_key = CurKey::Numlock;
        } else {
            if self.layout.in_calc_bbox(self.state.pos) {
                self.state.finger_state = FingerState::Touching;
                self.state.cur_key = CurKey::Calc;
            }
            self.state.tapped_outside_numlock_bbox = true;
        }
        proof {
            assert(acts@ =~= spec_on_tap(old(self).layout, old(self).state, time).1);
        }
        acts
    }

    /// Consume one raw touchpad event: update the state and return the side
    /// effects to perform, in order.
    #[verifier::rlimit(60)]
    pub fn handle_touchpad_event(&mut self, ev: TouchpadEvent) -> (acts: Vec<Action>)
        requires
            old(self).wf(),
            spec_event_time_ok(ev, old(self).state),
        ensures
            final(self).wf(),
            final(self).layout == old(self).layout,
            final(self).config == old(self).config,
            (final(self).state, acts@) == old(self).spec_handle_event(ev),
    {
        let mut acts: Vec<Action> = Vec::new();
        match ev {
            TouchpadEvent::PositionX(v) => {
                self.state.pos.x = v;
            },
            TouchpadEvent::PositionY(v) => {
                self.state.pos.y = v;
            },
            TouchpadEvent::Finger { value, time } => {
                if value == 0 {
                    if !self.state.finger_dragged_too_much {
                        // only lift if a finger drag did not already do it
                        let mut a = self.on_lift();
                        acts.append(&mut a);
                    } else {
                        self.state.dragged_finger_lifted_at = time;
                    }
                } else if value == 1 {
                    if !self.state.finger_dragged_too_much || time.elapsed_since(
                        self.state.dragged_finger_lifted_at,
                    ).micros >= HOLD_DURATION_MICROS {
                        let mut a = self.on_tap(time);
                        acts.append(&mut a);
                    }
                }
            },
            TouchpadEvent::Timestamp { time } => {
                // the toggle fires after the hold threshold even while the
                // finger keeps touching the zone
                if self.state.finger_state == FingerState::Touching
                    && !self.state.tapped_outside_numlock_bbox {
                    if self.layout.in_numlock_bbox(self.state.pos) {
                        if time.elapsed_since(self.state.tap_started_at).micros
                            >= HOLD_DURATION_MICROS {
                            let mut a = self.toggle_numlock();
                            acts.append(&mut a);
                            // a continued hold must not keep toggling; not
                            // Lifted, which would start another tap
                            self.state.finger_state = FingerState::TouchStart;
                        }
                    } else {
                        self.state.tapped_outside_numlock_bbox = true;
                    }
                }
                if self.state.numlock && self.state.cur_key == CurKey::Calc
                    && self.layout.in_calc_bbox(self.state.pos) && time.elapsed_since(
                    self.state.tap_started_at,
                ).micros >= HOLD_DURATION_MICROS {
                    let b = self.state.brightness.cycle();
                    acts.push(Action::SetBrightness(b));
                    self.state.cur_key.reset();
                }
            },
            TouchpadEvent::Other => {},
        }
        // if the finger drags too much, stop the tap without a finger-up
        if self.state.numlock && self.state.finger_state == FingerState::Touching
            && self.state.cur_key != CurKey::Calc && self.state.tap_start_pos.dist_sq(
            self.state.pos,
        ) > TAP_JITTER_DIST {
            self.state.finger_dragged_too_much = true;
            acts.push(Action::Ungrab);
            let mut a = self.on_lift();
            acts.append(&mut a);
        }
        proof {
            assert(acts@ =~= old(self).spec_handle_event(ev).1);
        }
        acts
    }
}

/// Toggling numlock twice from any state returns exactly the starting
/// state, and each toggle's action list holds exactly one numlock
/// key-press — its last action, and no other.
pub proof fn lemma_toggle_numlock_round_trip(s: TouchpadState)
    ensures
        spec_toggle_numlock(s).0.numlock == !s.numlock,
        spec_toggle_numlock(spec_toggle_numlock(s).0).0 == s,
        spec_toggle_numlock(s).1.last() == Action::KeyPress(Key::NumLock),
        forall|i: int|
            0 <= i < spec_toggle_numlock(s).1.len() - 1 ==> spec_toggle_numlock(s).1[i]
                != Action::KeyPress(Key::NumLock),
{
}

/// Adopting the system's numlock indicator sets the local flag to the
/// indicator's value but presses no numlock key back: the system already
/// changed its own bit, and echoing it would toggle it again.
pub proof fn lemma_numlock_led_resync(s: TouchpadState, val: i32)
    ensures
        spec_handle_numlock_pressed(s, val).0.numlock == (val != 0),
        forall|i: int|
            0 <= i < spec_handle_numlock_pressed(s, val).1.len() ==> spec_handle_numlock_pressed(
                s,
                val,
            ).1[i] != Action::KeyPress(Key::NumLock),
{
}

/// A finger that starts a tap inside the numlock zone and rests there past
/// the hold threshold toggles numlock exactly once for the whole hold: the
/// first tick past the threshold toggles, and every further tick of the
/// same un-lifted tap toggles nothing and acts not at all, whatever its
/// time.
pub proof fn lemma_numlock_hold_toggles_once(m: Numpad, t1: TimeVal, t2: TimeVal)
    requires
        m.state.finger_state is Touching,
        !m.state.tapped_outside_numlock_bbox,
        m.state.cur_key is Numlock,
        m.layout.numlock_bbox.spec_contains(m.state.pos),
        spec_elapsed(t1, m.state.tap_started_at) >= HOLD_DURATION_MICROS,
    ensures
        ({
            let first = m.spec_handle_event(TouchpadEvent::Timestamp { time: t1 });
            let m1 = Numpad { state: first.0, ..m };
            let second = m1.spec_handle_event(TouchpadEvent::Timestamp { time: t2 });
            &&& first.0.numlock == !m.state.numlock
            &&& second.0.numlock == first.0.numlock
            &&& second.1 =~= Seq::<Action>::empty()
        }),
{
}

/// A drag beyond the jitter threshold while a numpad key is held releases
/// the key and the device grab at once: the position event's actions are
/// exactly the ungrab followed by the key's release, and the finger counts
/// as lifted without any real finger-up event.
pub proof fn lemma_drag_releases_held_key(m: Numpad, ev: TouchpadEvent, k: Key)
    requires
        m.state.numlock,
        m.state.finger_state is Touching,
        m.state.cur_key == CurKey::Numpad(k),
        ev matches TouchpadEvent::PositionX(_) || ev matches TouchpadEvent::PositionY(_),
        ({
            let moved = match ev {
                TouchpadEvent::PositionX(v) => Point { x: v, y: m.state.pos.y },
                TouchpadEvent::PositionY(v) => Point { x: m.state.pos.x, y: v },
                _ => m.state.pos,
            };
            spec_dist_sq(m.state.tap_start_pos, moved) > TAP_JITTER_DIST
        }),
    ensures
        ({
            let stepped = m.spec_handle_event(ev);
            &&& stepped.1 =~= seq![Action::Ungrab, spec_keyup_action(k)]
            &&& stepped.0.finger_state is Lifted
            &&& stepped.0.cur_key is NoKey
            &&& stepped.0.finger_dragged_too_much
        }),
{
}

/// The machine's structural invariant over the current key: the tagged
/// union makes at most one of the numlock zone, the calculator zone and a
/// numpad key current by construction, and while a numpad key is current
/// the finger is touching, numlock is active and the tap is marked outside
/// the numlock zone.
pub open spec fn spec_key_held_inv(s: TouchpadState) -> bool {
    s.cur_key matches CurKey::Numpad(_) ==> (s.finger_state is Touching && s.numlock
        && s.tapped_outside_numlock_bbox)
}

/// Every touchpad event preserves the held-key invariant.
pub proof fn lemma_handle_event_preserves_key_held_inv(m: Numpad, ev: TouchpadEvent)
    requires
        spec_key_held_inv(m.state),
    ensures
        spec_key_held_inv(m.spec_handle_event(ev).0),
{
}

/// The numlock-indicator resync changes only the numlock flag, so a held
/// numpad key still means a touching finger and a tap outside the numlock
/// zone; the numlock conjunct itself is the one part the indicator can
/// break, by announcing numlock off while a key is held.
pub proof fn lemma_led_resync_keeps_held_key_shape(s: TouchpadState, val: i32)
    requires
        s.cur_key matches CurKey::Numpad(_) ==> (s.finger_state is Touching
            && s.tapped_outside_numlock_bbox),
    ensures
        ({
            let s1 = spec_handle_numlock_pressed(s, val).0;
            s1.cur_key matches CurKey::Numpad(_) ==> (s1.finger_state is Touching
                && s1.tapped_outside_numlock_bbox)
        }),
{
}

} // verus!
