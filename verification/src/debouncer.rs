//! A leaky-integrator debounce filter for a mechanical switch.
//!
//! The filter accumulates evidence of a sustained level in a bounded
//! integrator. The stable `output` flips only when the integrator reaches one
//! of its extremes, so a short burst of contact chatter cannot flip it.

use vstd::prelude::*;

verus! {

/// Which raw electrical level counts as logically "pressed".
#[derive(Clone, Copy, Debug, PartialEq, Eq, Structural)]
pub enum Active {
    Low,
    High,
}

/// The mathematical model of a [`Debouncer`]: the same state with the bounded
/// counters widened to `int`.
pub struct DebouncerView {
    /// Evidence accumulator, always in `[0, max]`.
    pub integrator: int,
    /// Number of consecutive consistent samples needed to flip `output`.
    pub max: int,
    /// The stable, hysteretic signal; `true` means the raw level is high.
    pub output: bool,
    /// Polarity mapping from `output` to logically pressed.
    pub active_mode: Active,
}

impl DebouncerView {
    /// State-space invariant: the integrator stays inside `[0, max]`, and
    /// `output` agrees with the integrator whenever the integrator sits at an
    /// extreme. Established by construction and preserved by every step.
    pub open spec fn wf(self) -> bool {
        &&& 1 <= self.max <= 255
        &&& 0 <= self.integrator <= self.max
        &&& (self.integrator == 0 ==> !self.output)
        &&& (self.integrator == self.max ==> self.output)
    }

    /// One filter step on one raw sample. A low sample drains the integrator
    /// (saturating at `0`), a high sample charges it (saturating at `max`);
    /// `output` flips only at the extremes.
    pub open spec fn step(self, raw_is_low: bool) -> DebouncerView {
        let drained: int = if raw_is_low {
            if self.integrator > 0 {
                self.integrator - 1
            } else {
                0
            }
        } else {
            if self.integrator < self.max {
                self.integrator + 1
            } else {
                self.integrator
            }
        };
        DebouncerView {
            integrator: if drained >= self.max {
                self.max
            } else {
                drained
            },
            max: self.max,
            output: if drained == 0 {
                false
            } else if drained >= self.max {
                true
            } else {
                self.output
            },
            active_mode: self.active_mode,
        }
    }

    /// The debounced logical signal: `output` mapped through the polarity.
    pub open spec fn pressed(self) -> bool {
        match self.active_mode {
            Active::High => self.output,
            Active::Low => !self.output,
        }
    }

    /// The filter has settled at one of its extremes; `output` is stable.
    pub open spec fn stable(self) -> bool {
        self.integrator == 0 || self.integrator == self.max
    }
}

/// The debounce threshold derived from a window in milliseconds and a sample
/// rate in hertz: the window expressed as a number of samples, rounded to the
/// nearest integer and clamped into `[1, 255]`.
pub open spec fn debounce_max(debounce_time_ms: u16, sample_frequency: u16) -> int {
    let samples: int = (debounce_time_ms * sample_frequency + 500) / 1000;
    if samples < 1 {
        1
    } else if samples > 255 {
        255
    } else {
        samples
    }
}

/// The filter state after a whole sequence of raw samples, applied in order:
/// the fold of [`DebouncerView::step`] over `samples`.
pub open spec fn run(d: DebouncerView, samples: Seq<bool>) -> DebouncerView
    decreases samples.len(),
{
    if samples.len() == 0 {
        d
    } else {
        run(d.step(samples[0]), samples.subrange(1, samples.len() as int))
    }
}

/// How many samples of the sequence read the high level (and so charge the
/// integrator).
pub open spec fn count_high(samples: Seq<bool>) -> nat
    decreases samples.len(),
{
    if samples.len() == 0 {
        0
    } else {
        (if samples[0] {
            0nat
        } else {
            1nat
        }) + count_high(samples.subrange(1, samples.len() as int))
    }
}

/// How many samples of the sequence read the low level (and so drain the
/// integrator).
pub open spec fn count_low(samples: Seq<bool>) -> nat
    decreases samples.len(),
{
    if samples.len() == 0 {
        0
    } else {
        (if samples[0] {
            1nat
        } else {
            0nat
        }) + count_low(samples.subrange(1, samples.len() as int))
    }
}

/// The integrator never leaves `[0, max]`: the state-space invariant holds
/// again after every poll, and hence after every sequence of polls.
pub proof fn lemma_run_preserves_wf(d: DebouncerView, samples: Seq<bool>)
    requires
        d.wf(),
    ensures
        run(d, samples).wf(),
    decreases samples.len(),
{
    if samples.len() > 0 {
        lemma_run_preserves_wf(d.step(samples[0]), samples.subrange(1, samples.len() as int));
    }
}

/// Once the filter has settled at an extreme and the raw input keeps reading
/// the level that drove it there, a further step is a no-op: the whole state,
/// `output` included, never changes again while the input holds still.
pub proof fn lemma_stable_fixed_point(d: DebouncerView, raw_is_low: bool)
    requires
        d.wf(),
        d.integrator == 0 ==> raw_is_low,
        d.integrator == d.max ==> !raw_is_low,
        d.stable(),
    ensures
        d.step(raw_is_low) == d,
{
}

/// While `output` is low, a sample run with fewer high samples than the
/// integrator needs to reach `max` cannot flip `output`; the integrator rises
/// by at most one per high sample.
pub proof fn lemma_short_charge_keeps_output_low(d: DebouncerView, samples: Seq<bool>)
    requires
        d.wf(),
        !d.output,
        d.integrator + count_high(samples) < d.max,
    ensures
        run(d, samples).wf(),
        !run(d, samples).output,
        run(d, samples).integrator <= d.integrator + count_high(samples),
        run(d, samples).max == d.max,
        run(d, samples).active_mode == d.active_mode,
    decreases samples.len(),
{
    if samples.len() > 0 {
        lemma_short_charge_keeps_output_low(
            d.step(samples[0]),
            samples.subrange(1, samples.len() as int),
        );
    }
}

/// While `output` is high, a sample run with fewer low samples than the
/// integrator's distance from `0` cannot flip `output`; the integrator drops
/// by at most one per low sample.
pub proof fn lemma_short_drain_keeps_output_high(d: DebouncerView, samples: Seq<bool>)
    requires
        d.wf(),
        d.output,
        count_low(samples) < d.integrator,
    ensures
        run(d, samples).wf(),
        run(d, samples).output,
        run(d, samples).integrator >= d.integrator - count_low(samples),
        run(d, samples).max == d.max,
        run(d, samples).active_mode == d.active_mode,
    decreases samples.len(),
{
    if samples.len() > 0 {
        lemma_short_drain_keeps_output_high(
            d.step(samples[0]),
            samples.subrange(1, samples.len() as int),
        );
    }
}

/// Glitch rejection from the settled low side: with threshold `max`, a run of
/// `max - 1` high samples with a single low sample embedded anywhere in it
/// does not flip `output` to high.
pub proof fn lemma_single_glitch_rejected_while_low(d: DebouncerView, samples: Seq<bool>)
    requires
        d.wf(),
        d.integrator == 0,
        samples.len() == d.max,
        count_high(samples) == d.max - 1,
    ensures
        !run(d, samples).output,
{
    lemma_short_charge_keeps_output_low(d, samples);
}

/// Glitch rejection from the settled high side: with threshold `max`, a run
/// of `max - 1` low samples with a single high sample embedded anywhere in it
/// does not flip `output` to low.
pub proof fn lemma_single_glitch_rejected_while_high(d: DebouncerView, samples: Seq<bool>)
    requires
        d.wf(),
        d.integrator == d.max,
        samples.len() == d.max,
        count_low(samples) == d.max - 1,
    ensures
        run(d, samples).output,
{
    lemma_short_drain_keeps_output_high(d, samples);
}

/// Debounce filter over a stream of raw pin samples.
///
/// Inspired by Kenneth Kuhn's integrator debounce algorithm: each sample
/// nudges a bounded counter toward one end, and the published signal changes
/// only when the counter arrives at an end.
pub struct Debouncer {
    integrator: u8,
    max: u8,
    output: bool,
    active_mode: Active,
}

impl View for Debouncer {
    type V = DebouncerView;

    closed spec fn view(&self) -> DebouncerView {
        DebouncerView {
            integrator: self.integrator as int,
            max: self.max as int,
            output: self.output,
            active_mode: self.active_mode,
        }
    }
}

impl Debouncer {
    /// Builds a filter whose debounce window is `debounce_time_ms`, sampled at
    /// `sample_frequency` polls per second. A window that rounds to zero
    /// samples is clamped to one sample. The initial state is the released
    /// level for the given polarity, already settled.
    pub fn new(active_mode: Active, debounce_time_ms: u16, sample_frequency: u16) -> (r: Debouncer)
        ensures
            r@.wf(),
            r@.max == debounce_max(debounce_time_ms, sample_frequency),
            r@.active_mode == active_mode,
            r@.output == (active_mode is Low),
            r@.integrator == if active_mode is Low {
                r@.max
            } else {
                0
            },
            r@.stable(),
            !r@.pressed(),
    {
        proof {
            assert((debounce_time_ms as int) * (sample_frequency as int) <= 65535 * 65535)
                by (nonlinear_arith)
                requires
                    debounce_time_ms <= 65535,
                    sample_frequency <= 65535,
            ;
        }
        let samples: u32 = (debounce_time_ms as u32) * (sample_frequency as u32);
        let rounded: u32 = (samples + 500) / 1000;
        let max: u8 = if rounded < 1 {
            1
        } else if rounded > 255 {
            255
        } else {
            rounded as u8
        };

        let integrator: u8 = match active_mode {
            Active::Low => max,
            Active::High => 0,
        };

        let output: bool = match active_mode {
            Active::Low => true,
            Active::High => false,
        };

        Debouncer { integrator, max, output, active_mode }
    }

    /// Applies one raw sample; `raw_is_low` is the electrical level the caller
    /// just read from the pin, before any polarity mapping. Mutates only the
    /// internal state and never fails.
    pub fn update(&mut self, raw_is_low: bool)
        requires
            old(self)@.wf(),
        ensures
            final(self)@ == old(self)@.step(raw_is_low),
            final(self)@.wf(),
    {
        if raw_is_low {
            if self.integrator > 0 {
                self.integrator -= 1;
            }
        } else if self.integrator < self.max {
            self.integrator += 1;
        }

        if self.integrator == 0 {
            self.output = false;
        } else if self.integrator >= self.max {
            self.output = true;
            self.integrator = self.max;
        }
    }

    /// Applies one raw sample; identical to [`Debouncer::update`].
    pub fn poll(&mut self, raw_is_low: bool)
        requires
            old(self)@.wf(),
        ensures
            final(self)@ == old(self)@.step(raw_is_low),
            final(self)@.wf(),
    {
        self.update(raw_is_low);
    }

    /// The debounced logical signal, mapped through the polarity.
    pub fn is_pressed(&self) -> (r: bool)
        ensures
            r == self@.pressed(),
    {
        match (&self.active_mode, self.output) {
            (Active::High, true) => true,
            (Active::Low, false) => true,
            _ => false,
        }
    }
}

} // verus!
