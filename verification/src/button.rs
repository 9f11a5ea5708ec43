//! A three-state press/release state machine over the debounced signal.
//!
//! Driven once per loop iteration with a fresh raw pin sample and the current
//! tick of a free-running, wrapping monotonic counter, it emits at most one
//! discrete event per poll: press, short release, long press, long release.

use vstd::prelude::*;

use crate::debouncer::DebouncerView;

pub use crate::debouncer::Active;
pub use crate::debouncer::Debouncer;

verus! {

/// A discrete interaction event; at most one is emitted per poll.
#[derive(Clone, Copy, Debug, PartialEq, Eq, Structural)]
pub enum ButtonEvent {
    /// The button has just been pressed down.
    Pressed,
    /// The button was released before the "long press" timeout.
    ShortRelease,
    /// The button has been held for at least the "long press" timeout.
    LongPress,
    /// The button has been released after a "long press".
    LongRelease,
}

/// The lifecycle of a press. `Pressed` carries the tick at which the press
/// was recognised, so the hold duration can be measured.
#[derive(Clone, Copy, Debug, PartialEq, Eq, Structural)]
pub enum ButtonState {
    Released,
    Pressed(u32),
    LongPressed,
}

/// Elapsed ticks from `t0` to `now` on a free-running counter that wraps at
/// `2^32`: the distance is measured modulo the counter's full range, so a
/// press that spans the wraparound still measures correctly.
pub open spec fn elapsed_spec(now: u32, t0: u32) -> int {
    if now >= t0 {
        now - t0
    } else {
        now - t0 + 0x1_0000_0000
    }
}

/// The long-press threshold derived from a timeout in milliseconds and the
/// tick frequency of the monotonic counter: the timeout expressed in ticks,
/// truncated, and clamped into `[1, u32::MAX]`.
pub open spec fn long_press_ticks(timeout_ms: u32, frequency_hz: u32) -> int {
    let ticks: int = timeout_ms * frequency_hz / 1000;
    if ticks < 1 {
        1
    } else if ticks > 0xffff_ffff {
        0xffff_ffff
    } else {
        ticks
    }
}

/// One transition of the state machine, given the freshly debounced signal
/// and the current tick. Returns the next state and the emitted event.
///
/// The release check is evaluated before the timeout check, so a release
/// always wins a tie at the same tick.
pub open spec fn machine_step(
    state: ButtonState,
    pressed: bool,
    now: u32,
    timeout_ticks: int,
) -> (ButtonState, Option<ButtonEvent>) {
    match state {
        ButtonState::Released => if pressed {
            (ButtonState::Pressed(now), Some(ButtonEvent::Pressed))
        } else {
            (ButtonState::Released, None)
        },
        ButtonState::Pressed(t0) => if !pressed {
            (ButtonState::Released, Some(ButtonEvent::ShortRelease))
        } else if elapsed_spec(now, t0) > timeout_ticks {
            (ButtonState::LongPressed, Some(ButtonEvent::LongPress))
        } else {
            (ButtonState::Pressed(t0), None)
        },
        ButtonState::LongPressed => if !pressed {
            (ButtonState::Released, Some(ButtonEvent::LongRelease))
        } else {
            (ButtonState::LongPressed, None)
        },
    }
}

/// The mathematical model of a [`Button`]: the filter's model, the machine
/// state, and the precomputed long-press threshold in ticks.
pub struct ButtonView {
    pub pin: DebouncerView,
    pub state: ButtonState,
    pub timeout_ticks: int,
}

impl ButtonView {
    /// Invariant: the owned filter is well formed and the threshold is a
    /// positive tick count that fits the counter.
    pub open spec fn wf(self) -> bool {
        &&& self.pin.wf()
        &&& 1 <= self.timeout_ticks <= 0xffff_ffff
    }

    /// One whole poll: first one filter step on the raw sample, then one
    /// machine transition against the new debounced signal.
    pub open spec fn step(self, raw_is_low: bool, now: u32) -> (ButtonView, Option<ButtonEvent>) {
        let pin = self.pin.step(raw_is_low);
        let (state, event) = machine_step(self.state, pin.pressed(), now, self.timeout_ticks);
        (ButtonView { pin, state, timeout_ticks: self.timeout_ticks }, event)
    }

    /// The whole core is at rest under an unchanging raw input: the filter
    /// has settled at the extreme the input keeps driving it to, and the
    /// machine sits in the state that matches the debounced signal —
    /// `Released` while it reads released, `LongPressed` while it reads held.
    pub open spec fn settled(self, raw_is_low: bool) -> bool {
        &&& (self.pin.integrator == 0 && raw_is_low) || (self.pin.integrator == self.pin.max
            && !raw_is_low)
        &&& (self.state is Released && !self.pin.pressed()) || (self.state is LongPressed
            && self.pin.pressed())
    }
}

/// Once the core is settled and the raw input stops changing, a further poll
/// is a no-op at any tick: the state — debounced output included — never
/// changes again and no further event is emitted. Applied once per poll, this
/// covers every later poll of an unchanging input.
pub proof fn lemma_settled_quiescent(b: ButtonView, raw_is_low: bool, now: u32)
    requires
        b.wf(),
        b.settled(raw_is_low),
    ensures
        b.step(raw_is_low, now).0 == b,
        b.step(raw_is_low, now).1 is None,
{
    crate::debouncer::lemma_stable_fixed_point(b.pin, raw_is_low);
}

/// The core after a whole run of polls under an unchanging raw input, one
/// poll per entry of `ticks`: the final state and the events emitted along
/// the way, in poll order.
pub open spec fn run_constant_input(b: ButtonView, raw_is_low: bool, ticks: Seq<u32>) -> (
    ButtonView,
    Seq<Option<ButtonEvent>>,
)
    decreases ticks.len(),
{
    if ticks.len() == 0 {
        (b, Seq::empty())
    } else {
        let (b1, event) = b.step(raw_is_low, ticks[0]);
        let (end, rest) = run_constant_input(b1, raw_is_low, ticks.subrange(1, ticks.len() as int));
        (end, seq![event] + rest)
    }
}

/// Once the core is settled and the raw input stops changing, every later
/// poll is a no-op: however many polls follow and whatever the counter reads
/// at each of them, the state — debounced output included — never changes and
/// no further event is emitted.
pub proof fn lemma_settled_stays_silent(b: ButtonView, raw_is_low: bool, ticks: Seq<u32>)
    requires
        b.wf(),
        b.settled(raw_is_low),
    ensures
        run_constant_input(b, raw_is_low, ticks).0 == b,
        run_constant_input(b, raw_is_low, ticks).1.len() == ticks.len(),
        forall|i: int|
            0 <= i < ticks.len() ==> run_constant_input(b, raw_is_low, ticks).1[i] is None,
    decreases ticks.len(),
{
    if ticks.len() > 0 {
        lemma_settled_quiescent(b, raw_is_low, ticks[0]);
        lemma_settled_stays_silent(b, raw_is_low, ticks.subrange(1, ticks.len() as int));
    }
}

/// A debounced push button with short-press / long-press discrimination.
pub struct Button {
    pin: Debouncer,
    button_state: ButtonState,
    long_press_timeout_ticks: u32,
}

impl View for Button {
    type V = ButtonView;

    closed spec fn view(&self) -> ButtonView {
        ButtonView {
            pin: self.pin@,
            state: self.button_state,
            timeout_ticks: self.long_press_timeout_ticks as int,
        }
    }
}

/// Elapsed ticks from `t0` to `now` on the wrapping counter, as executable
/// code: modular distance, correct also when the counter wrapped between the
/// two readings.
pub fn elapsed_ticks(now: u32, t0: u32) -> (r: u32)
    ensures
        r == elapsed_spec(now, t0),
{
    if now >= t0 {
        now - t0
    } else {
        u32::MAX - t0 + now + 1
    }
}

impl Button {
    /// Builds the state machine around an already-constructed filter.
    /// `frequency_hz` is the tick rate of the monotonic counter that later
    /// `poll` calls read from; the long-press threshold is precomputed here
    /// once, in integer ticks, and a timeout that converts to zero ticks is
    /// clamped to one tick.
    pub fn new(pin: Debouncer, long_press_timeout_ms: u32, frequency_hz: u32) -> (r: Button)
        requires
            pin@.wf(),
        ensures
            r@.wf(),
            r@.pin == pin@,
            r@.state is Released,
            r@.timeout_ticks == long_press_ticks(long_press_timeout_ms, frequency_hz),
    {
        proof {
            assert((long_press_timeout_ms as int) * (frequency_hz as int) <= 0xffff_ffff
                * 0xffff_ffff)
                by (nonlinear_arith)
                requires
                    long_press_timeout_ms <= 0xffff_ffff,
                    frequency_hz <= 0xffff_ffff,
            ;
        }
        let ticks_wide: u64 = (long_press_timeout_ms as u64) * (frequency_hz as u64) / 1000;
        let long_press_timeout_ticks: u32 = if ticks_wide < 1 {
            1
        } else if ticks_wide > 0xffff_ffff {
            0xffff_ffff
        } else {
            ticks_wide as u32
        };

        Button { pin, button_state: ButtonState::Released, long_press_timeout_ticks }
    }

    /// The debounced logical signal; lets collaborators gate concurrent
    /// behaviour on the held button without consuming an event.
    pub fn is_pressed(&self) -> (r: bool)
        ensures
            r == self@.pin.pressed(),
    {
        self.pin.is_pressed()
    }

    /// One poll: applies the raw sample `raw_is_low` to the filter exactly
    /// once, then takes one transition of the machine against the freshly
    /// debounced signal and the current counter tick `now`. Returns the
    /// emitted event, if any; the whole effect is one [`ButtonView::step`].
    pub fn poll(&mut self, raw_is_low: bool, now: u32) -> (event: Option<ButtonEvent>)
        requires
            old(self)@.wf(),
        ensures
            final(self)@.wf(),
            final(self)@ == old(self)@.step(raw_is_low, now).0,
            event == old(self)@.step(raw_is_low, now).1,
    {
        self.pin.poll(raw_is_low);

        match self.button_state {
            ButtonState::Released => {
                if self.pin.is_pressed() {
                    self.button_state = ButtonState::Pressed(now);
                    return Some(ButtonEvent::Pressed);
                }
            },
            ButtonState::Pressed(press_start) => {
                if !self.pin.is_pressed() {
                    self.button_state = ButtonState::Released;
                    return Some(ButtonEvent::ShortRelease);
                } else if elapsed_ticks(now, press_start) > self.long_press_timeout_ticks {
                    self.button_state = ButtonState::LongPressed;
                    return Some(ButtonEvent::LongPress);
                }
            },
            ButtonState::LongPressed => {
                if !self.pin.is_pressed() {
                    self.button_state = ButtonState::Released;
                    return Some(ButtonEvent::LongRelease);
                }
            },
        }

        None
    }
}

} // verus!
