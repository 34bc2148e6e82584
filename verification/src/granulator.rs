//! The engine: a pool of grains fed by the onset clock, reading from and
//! feeding back into one delay line.
use vstd::prelude::*;

use crate::constants::{
    DEFAULT_DELAY_FEEDBACK,
    DEFAULT_DENSITY,
    DEFAULT_DURATION,
    DEFAULT_PITCH,
    DEFAULT_VOLUME,
    DEFAULT_WET_DRY,
    MAX_CAPACITY,
    MAX_GRAINS,
    MIX_GAIN,
};
use crate::delay_line::{DelayLine, History};
use crate::fixed::{
    from_whole,
    lemma_times_half,
    lemma_times_unit,
    fx_add,
    fx_mul,
    fx_neg,
    fx_sub,
    minus,
    negated,
    plus,
    saturate,
    saturating,
    times,
    truncating_quotient,
    whole,
    wide_quotient,
    Fixed,
    ONE,
};
use crate::frame::{Frame, SILENT_FRAME};
use crate::grain::Grain;
use crate::scheduler::{Clock, Scheduler, DRAW_LOW};

verus! {

/// Whether some grain of the pool is idle.
pub open spec fn has_idle(grains: Seq<Grain>) -> bool {
    exists|i: int| 0 <= i < grains.len() && !(#[trigger] grains[i]).is_active
}

/// Whether `i` is the first idle grain of the pool.
pub open spec fn is_first_idle(grains: Seq<Grain>, i: int) -> bool {
    &&& 0 <= i < grains.len()
    &&& !grains[i].is_active
    &&& forall|j: int| 0 <= j < i ==> (#[trigger] grains[j]).is_active
}

/// The index of the first idle grain of a pool that has one.
pub open spec fn first_idle(grains: Seq<Grain>) -> int {
    choose|i: int| is_first_idle(grains, i)
}

/// The pool after an onset: its first idle grain is started with the given
/// settings; a pool without an idle grain stays as it is.
pub open spec fn with_onset(
    grains: Seq<Grain>,
    position: Fixed,
    duration: Fixed,
    pitch: Fixed,
) -> Seq<Grain> {
    if has_idle(grains) {
        grains.update(
            first_idle(grains),
            grains[first_idle(grains)].activated(position, duration, pitch),
        )
    } else {
        grains
    }
}

/// The number of playing grains.
pub open spec fn active_count(grains: Seq<Grain>) -> nat
    decreases grains.len(),
{
    if grains.len() == 0 {
        0
    } else {
        active_count(grains.drop_last()) + if grains.last().is_active {
            1nat
        } else {
            0nat
        }
    }
}

/// The exact sums, channel by channel, of the frames that the grains
/// contribute next.
pub open spec fn output_total(grains: Seq<Grain>, history: History) -> (int, int)
    decreases grains.len(),
{
    if grains.len() == 0 {
        (0, 0)
    } else {
        let before = output_total(grains.drop_last(), history);
        let frame = grains.last().output(history);
        (before.0 + frame.0, before.1 + frame.1)
    }
}

/// One channel of the mix: the total divided by the number of playing
/// grains, rounded toward zero, times the mix gain.
pub open spec fn averaged(total: int, count: nat) -> Fixed {
    times(saturate(truncating_quotient(total, count as int)), MIX_GAIN)
}

/// The mix of the grains' next frames: silence when none plays, else the
/// average over the playing grains times the mix gain.
pub open spec fn mixed(grains: Seq<Grain>, history: History) -> Frame {
    let count = active_count(grains);
    let total = output_total(grains, history);
    if count == 0 {
        SILENT_FRAME
    } else {
        (averaged(total.0, count), averaged(total.1, count))
    }
}

/// The pool after every grain has contributed a frame.
pub open spec fn all_advanced(grains: Seq<Grain>) -> Seq<Grain> {
    Seq::new(grains.len(), |i: int| grains[i].advanced())
}

/// The frame written to the delay line: `input + mix * feedback`.
pub open spec fn feedback_frame(input: Frame, mix: Frame, feedback: Fixed) -> Frame {
    (plus(input.0, times(mix.0, feedback)), plus(input.1, times(mix.1, feedback)))
}

/// One channel of the output: `(-input * (1 - wet_dry) + mix * wet_dry) * volume`.
pub open spec fn output_sample(input: Fixed, mix: Fixed, wet_dry: Fixed, volume: Fixed) -> Fixed {
    times(plus(times(negated(input), minus(ONE, wet_dry)), times(mix, wet_dry)), volume)
}

/// The output frame: the inverted input and the mix, weighed by `wet_dry`,
/// times the volume.
pub open spec fn output_frame(input: Frame, mix: Frame, wet_dry: Fixed, volume: Fixed) -> Frame {
    (
        output_sample(input.0, mix.0, wet_dry, volume),
        output_sample(input.1, mix.1, wet_dry, volume),
    )
}

/// What an engine holds.
#[verifier::ext_equal]
pub struct Engine {
    /// The onset clock.
    pub scheduler: Clock,
    /// The grain pool.
    pub grains: Seq<Grain>,
    /// The delay line.
    pub history: History,
    /// The delay at which new grains start to read.
    pub position: Fixed,
    /// The duration of new grains.
    pub duration: Fixed,
    /// The pitch of new grains.
    pub pitch: Fixed,
    /// The output volume.
    pub volume: Fixed,
    /// The share of the mix that goes back into the delay line.
    pub feedback: Fixed,
    /// The weight of the mix in the output; the inverted input has the rest.
    pub wet_dry: Fixed,
}

impl Engine {
    /// The pool has its fixed size and the delay line is well formed.
    pub open spec fn wf(self) -> bool {
        &&& self.grains.len() == MAX_GRAINS
        &&& self.history.wf()
    }

    /// Whether the next frame starts a grain: the clock is due and a grain
    /// is idle.
    pub open spec fn starts_grain(self) -> bool {
        self.scheduler.due() && has_idle(self.grains)
    }

    /// The pool as it contributes to the next frame: after the onset, where
    /// the clock is due.
    pub open spec fn sounding(self) -> Seq<Grain> {
        if self.scheduler.due() {
            with_onset(self.grains, self.position, self.duration, self.pitch)
        } else {
            self.grains
        }
    }

    /// The mix of the grains for the next frame.
    pub open spec fn mix(self) -> Frame {
        mixed(self.sounding(), self.history)
    }

    /// The output for the input frame `input`.
    pub open spec fn output(self, input: Frame) -> Frame {
        output_frame(input, self.mix(), self.wet_dry, self.volume)
    }

    /// The engine after the input frame `input`, where `log_draw` is the
    /// negated logarithm of the number drawn for the clock: the clock has
    /// moved on, every grain has contributed, and the input plus the fed
    /// back mix is written to the delay line.
    pub open spec fn processed(self, input: Frame, log_draw: Fixed) -> Engine {
        Engine {
            scheduler: self.scheduler.advanced(log_draw),
            grains: all_advanced(self.sounding()),
            history: self.history.written(feedback_frame(input, self.mix(), self.feedback)),
            ..self
        }
    }

    /// The engine after each of `frames` in turn, where a frame is an input
    /// frame with the negated logarithm of the number drawn for it.
    pub open spec fn processed_all(self, frames: Seq<(Frame, Fixed)>) -> Engine
        decreases frames.len(),
    {
        if frames.len() == 0 {
            self
        } else {
            self.processed_all(frames.drop_last()).processed(frames.last().0, frames.last().1)
        }
    }

    /// The first idle grain of a pool that has one is well defined.
    pub proof fn lemma_first_idle(grains: Seq<Grain>)
        requires
            has_idle(grains),
        ensures
            is_first_idle(grains, first_idle(grains)),
    {
        let some = choose|i: int| 0 <= i < grains.len() && !(#[trigger] grains[i]).is_active;
        Self::lemma_first_idle_before(grains, some);
    }

    /// An idle grain at `bound` has a first idle grain at or before it.
    proof fn lemma_first_idle_before(grains: Seq<Grain>, bound: int)
        requires
            0 <= bound < grains.len(),
            !grains[bound].is_active,
        ensures
            exists|i: int| is_first_idle(grains, i),
        decreases bound,
    {
        if forall|j: int| 0 <= j < bound ==> (#[trigger] grains[j]).is_active {
            assert(is_first_idle(grains, bound));
        } else {
            let earlier = choose|j: int| 0 <= j < bound && !(#[trigger] grains[j]).is_active;
            Self::lemma_first_idle_before(grains, earlier);
        }
    }

    /// An onset never changes the size of the pool; with every grain
    /// playing it changes nothing at all: the onset is dropped.
    pub proof fn lemma_onset_keeps_pool(
        grains: Seq<Grain>,
        position: Fixed,
        duration: Fixed,
        pitch: Fixed,
    )
        ensures
            with_onset(grains, position, duration, pitch).len() == grains.len(),
            !has_idle(grains) ==> with_onset(grains, position, duration, pitch) == grains,
            has_idle(grains) ==> active_count(with_onset(grains, position, duration, pitch))
                == active_count(grains) + 1,
    {
        if has_idle(grains) {
            Self::lemma_first_idle(grains);
            let first = first_idle(grains);
            Self::lemma_count_after_start(
                grains,
                first,
                grains[first].activated(position, duration, pitch),
            );
        }
    }

    /// Replacing an idle grain by a playing one adds one to the count.
    proof fn lemma_count_after_start(grains: Seq<Grain>, i: int, started: Grain)
        requires
            0 <= i < grains.len(),
            !grains[i].is_active,
            started.is_active,
        ensures
            active_count(grains.update(i, started)) == active_count(grains) + 1,
        decreases grains.len(),
    {
        let after = grains.update(i, started);
        if i == grains.len() - 1 {
            assert(after.drop_last() =~= grains.drop_last());
        } else {
            assert(after.drop_last() =~= grains.drop_last().update(i, started));
            Self::lemma_count_after_start(grains.drop_last(), i, started);
        }
    }

    /// The count of playing grains never exceeds the size of the pool, and
    /// is zero exactly when every grain is idle.
    pub proof fn lemma_count_bounds(grains: Seq<Grain>)
        ensures
            active_count(grains) <= grains.len(),
            active_count(grains) == 0 <==> forall|i: int|
                0 <= i < grains.len() ==> !(#[trigger] grains[i]).is_active,
        decreases grains.len(),
    {
        if grains.len() > 0 {
            Self::lemma_count_bounds(grains.drop_last());
            assert forall|i: int| 0 <= i < grains.len() - 1 implies grains[i]
                == grains.drop_last()[i] by {}
            if active_count(grains) == 0 {
                assert forall|i: int| 0 <= i < grains.len() implies !(
                #[trigger] grains[i]).is_active by {
                    if i < grains.len() - 1 {
                        assert(grains[i] == grains.drop_last()[i]);
                    }
                }
            } else if !grains.last().is_active {
                let i = choose|i: int|
                    0 <= i < grains.len() - 1 && (#[trigger] grains.drop_last()[i]).is_active;
                assert(grains[i].is_active);
            }
        }
    }

    /// Idle grains contribute nothing: with every grain idle the totals are
    /// zero and the mix is silence.
    pub proof fn lemma_idle_pool_is_silent(grains: Seq<Grain>, history: History)
        requires
            forall|i: int| 0 <= i < grains.len() ==> !(#[trigger] grains[i]).is_active,
        ensures
            output_total(grains, history) == (0int, 0int),
            mixed(grains, history) == SILENT_FRAME,
            all_advanced(grains) == grains,
        decreases grains.len(),
    {
        Self::lemma_count_bounds(grains);
        assert(all_advanced(grains) =~= grains);
        if grains.len() > 0 {
            assert forall|i: int| 0 <= i < grains.len() - 1 implies !(
            #[trigger] grains.drop_last()[i]).is_active by {
                assert(grains.drop_last()[i] == grains[i]);
            }
            Self::lemma_idle_pool_is_silent(grains.drop_last(), history);
            assert(!grains[grains.len() - 1].is_active);
        }
    }

    /// A fully dry engine puts out the inverted input times the volume,
    /// whatever the grains play.
    pub proof fn lemma_dry_output(self, input: Frame)
        requires
            self.wet_dry == 0,
        ensures
            self.output(input) == (
                times(negated(input.0), self.volume),
                times(negated(input.1), self.volume),
            ),
    {
        let mix = self.mix();
        Self::lemma_dry_sample(input.0, mix.0, self.volume);
        Self::lemma_dry_sample(input.1, mix.1, self.volume);
    }

    /// One channel of a fully dry output.
    proof fn lemma_dry_sample(input: Fixed, mix: Fixed, volume: Fixed)
        ensures
            output_sample(input, mix, 0, volume) == times(negated(input), volume),
    {
        lemma_times_unit(mix);
        lemma_times_unit(negated(input));
    }

    /// A fully dry engine at half volume puts out half the inverted input,
    /// rounded toward zero, whatever the grains play and whatever is fed
    /// back.
    pub proof fn lemma_dry_half_volume(self, input: Frame)
        requires
            self.wet_dry == 0,
            self.volume == 2147483648,
        ensures
            self.output(input).0 == truncating_quotient(negated(input.0) as int, 2),
            self.output(input).1 == truncating_quotient(negated(input.1) as int, 2),
    {
        self.lemma_dry_output(input);
        lemma_times_half(negated(input.0));
        lemma_times_half(negated(input.1));
    }

    /// While no grain plays and the clock is not due, the engine puts out
    /// the inverted input alone, weighed and scaled, writes the bare input
    /// to the delay line, and starts nothing.
    pub proof fn lemma_silent_engine(self, input: Frame, log_draw: Fixed)
        requires
            self.wf(),
            !self.scheduler.due(),
            forall|i: int| 0 <= i < self.grains.len() ==> !(#[trigger] self.grains[i]).is_active,
        ensures
            self.mix() == SILENT_FRAME,
            self.output(input) == output_frame(input, SILENT_FRAME, self.wet_dry, self.volume),
            self.processed(input, log_draw).grains == self.grains,
            self.processed(input, log_draw).history == self.history.written(input),
    {
        Self::lemma_idle_pool_is_silent(self.grains, self.history);
        lemma_times_unit(self.feedback);
    }

    /// However many frames are processed and however many onsets fire among
    /// them, the pool keeps its fixed size, no more grains play than it
    /// holds, and the delay line keeps its capacity.
    pub proof fn lemma_pool_is_fixed(self, frames: Seq<(Frame, Fixed)>)
        requires
            self.wf(),
        ensures
            self.processed_all(frames).wf(),
            self.processed_all(frames).grains.len() == MAX_GRAINS,
            active_count(self.processed_all(frames).grains) <= MAX_GRAINS,
            self.processed_all(frames).history.capacity() == self.history.capacity(),
        decreases frames.len(),
    {
        if frames.len() > 0 {
            let before = self.processed_all(frames.drop_last());
            self.lemma_pool_is_fixed(frames.drop_last());
            before.lemma_processed_wf(frames.last().0, frames.last().1);
        }
        Self::lemma_count_bounds(self.processed_all(frames).grains);
    }

    /// A frame keeps the engine well formed: the pool stays at its fixed size
    /// however many onsets arrive, and no frame starts more than one grain.
    pub proof fn lemma_processed_wf(self, input: Frame, log_draw: Fixed)
        requires
            self.wf(),
        ensures
            self.processed(input, log_draw).wf(),
            self.processed(input, log_draw).grains.len() == MAX_GRAINS,
            self.sounding().len() == MAX_GRAINS,
            active_count(self.sounding()) == active_count(self.grains) + if self.starts_grain() {
                1nat
            } else {
                0nat
            },
    {
        Self::lemma_onset_keeps_pool(self.grains, self.position, self.duration, self.pitch);
        self.history.lemma_written_past(
            feedback_frame(input, self.mix(), self.feedback),
            1,
        );
    }
}

/// The settings that an engine is built from. `N` is the capacity of the
/// delay line in frames.
pub struct GranulatorOptions<H: Fn(Fixed), const N: usize> {
    /// The delay at which grains start to read, in frames.
    pub position: Fixed,
    /// The expected rate of onsets.
    pub density: Fixed,
    /// The duration of a grain, in frames.
    pub duration: Fixed,
    /// The pitch ratio of a grain.
    pub pitch: Fixed,
    /// The output volume.
    pub volume: Fixed,
    /// The share of the mix that goes back into the delay line.
    pub feedback: Fixed,
    /// The weight of the mix in the output: 1 is the grains alone, 0 the
    /// inverted input alone.
    pub wet_dry: Fixed,
    /// Called with the duration of each grain that starts.
    pub new_grain_hook: Option<H>,
    /// Storage of `N` frames for the delay line; without it the engine
    /// allocates a silent buffer of its own.
    pub delay_line_buffer: Option<Vec<Frame>>,
}

impl<H: Fn(Fixed), const N: usize> Default for GranulatorOptions<H, N> {
    /// The default settings: grains start half the buffer behind the cursor,
    /// there is no observer, and the engine owns its buffer.
    fn default() -> (options: Self)
        ensures
            options.position == whole(N as int / 2),
            options.density == DEFAULT_DENSITY,
            options.duration == DEFAULT_DURATION,
            options.pitch == DEFAULT_PITCH,
            options.volume == DEFAULT_VOLUME,
            options.feedback == DEFAULT_DELAY_FEEDBACK,
            options.wet_dry == DEFAULT_WET_DRY,
            options.new_grain_hook is None,
            options.delay_line_buffer is None,
    {
        GranulatorOptions {
            position: from_whole((N / 2) as i64),
            density: DEFAULT_DENSITY,
            duration: DEFAULT_DURATION,
            pitch: DEFAULT_PITCH,
            volume: DEFAULT_VOLUME,
            feedback: DEFAULT_DELAY_FEEDBACK,
            wet_dry: DEFAULT_WET_DRY,
            new_grain_hook: None,
            delay_line_buffer: None,
        }
    }
}

impl<H: Fn(Fixed), const N: usize> GranulatorOptions<H, N> {
    /// Whether an engine can be built from these settings: the capacity is
    /// at least one frame and no more than a delay line can address,
    /// supplied storage has exactly that many frames, and the grains' start
    /// delay is not beyond the buffer.
    pub open spec fn valid(self) -> bool {
        &&& 1 <= N <= MAX_CAPACITY
        &&& self.delay_line_buffer matches Some(buffer) ==> buffer.len() == N
        &&& self.position <= N * ONE
    }

    /// The first slots of the delay line: the supplied storage, or silence.
    pub open spec fn first_slots(self) -> Seq<Frame> {
        match self.delay_line_buffer {
            Some(buffer) => buffer@,
            None => Seq::new(N as nat, |i: int| SILENT_FRAME),
        }
    }

    /// The engine that these settings describe: the clock due at once, every
    /// grain idle, the cursor at the first slot.
    pub open spec fn engine(self) -> Engine {
        Engine {
            scheduler: Clock { next_onset: 0, density: self.density },
            grains: Seq::new(
                MAX_GRAINS as nat,
                |i: int| Grain::idle(self.position, self.duration, self.pitch),
            ),
            history: History { slots: self.first_slots(), cursor: 0 },
            position: self.position,
            duration: self.duration,
            pitch: self.pitch,
            volume: self.volume,
            feedback: self.feedback,
            wet_dry: self.wet_dry,
        }
    }
}

/// A granular-synthesis engine over a delay line of `N` frames.
pub struct Granulator<H: Fn(Fixed), const N: usize> {
    /// The onset clock.
    pub scheduler: Scheduler,
    /// The grain pool.
    pub grains_pool: [Grain; MAX_GRAINS],
    /// The delay line.
    pub delay_line: DelayLine,
    /// The delay at which new grains start to read.
    pub position: Fixed,
    /// The duration of new grains.
    pub duration: Fixed,
    /// The pitch of new grains.
    pub pitch: Fixed,
    /// The output volume.
    pub volume: Fixed,
    /// The share of the mix that goes back into the delay line.
    pub feedback: Fixed,
    /// The weight of the mix in the output.
    pub wet_dry: Fixed,
    /// Called with the duration of each grain that starts.
    pub new_grain_hook: Option<H>,
}

impl<H: Fn(Fixed), const N: usize> View for Granulator<H, N> {
    type V = Engine;

    open spec fn view(&self) -> Engine {
        Engine {
            scheduler: self.scheduler@,
            grains: self.grains_pool@,
            history: self.delay_line@,
            position: self.position,
            duration: self.duration,
            pitch: self.pitch,
            volume: self.volume,
            feedback: self.feedback,
            wet_dry: self.wet_dry,
        }
    }
}

/// A buffer of `capacity` silent frames.
fn silent_buffer(capacity: usize) -> (buffer: Vec<Frame>)
    ensures
        buffer@ == Seq::new(capacity as nat, |i: int| SILENT_FRAME),
{
    let mut buffer: Vec<Frame> = Vec::new();
    let mut filled: usize = 0;
    while filled < capacity
        invariant
            filled <= capacity,
            buffer@ == Seq::new(filled as nat, |i: int| SILENT_FRAME),
        decreases capacity - filled,
    {
        buffer.push(SILENT_FRAME);
        filled += 1;
        assert(buffer@ =~= Seq::new(filled as nat, |i: int| SILENT_FRAME));
    }
    buffer
}

impl<H: Fn(Fixed), const N: usize> Granulator<H, N> {
    /// Whether the observer, if there is one, may be called with the current
    /// duration.
    pub open spec fn hook_ready(&self) -> bool {
        self.new_grain_hook matches Some(hook) ==> call_requires(hook, (self.duration,))
    }

    /// An engine built from `options`, which must be valid: the clock is due
    /// at once, every grain is idle, and the delay line is the supplied
    /// storage or, without it, `N` frames of silence.
    pub fn new(options: GranulatorOptions<H, N>) -> (granulator: Granulator<H, N>)
        requires
            options.valid(),
        ensures
            granulator@ == options.engine(),
            granulator@.wf(),
            granulator.new_grain_hook == options.new_grain_hook,
    {
        let position = options.position;
        let duration = options.duration;
        let density = options.density;
        let pitch = options.pitch;
        let volume = options.volume;
        let feedback = options.feedback;
        let wet_dry = options.wet_dry;
        let new_grain_hook = options.new_grain_hook;
        let delay_line_buffer = match options.delay_line_buffer {
            Some(buffer) => buffer,
            None => silent_buffer(N),
        };
        let delay_line = DelayLine::new(delay_line_buffer);
        let granulator = Granulator {
            scheduler: Scheduler::new(density),
            grains_pool: [Grain::new(position, duration, pitch);MAX_GRAINS],
            delay_line,
            position,
            duration,
            pitch,
            volume,
            feedback,
            wet_dry,
            new_grain_hook,
        };
        assert(granulator@.grains =~= options.engine().grains);
        granulator
    }

    /// Whether the next frame fires an onset, and so uses its draw.
    pub fn onset_due(&self) -> (due: bool)
        ensures
            due == self@.scheduler.due(),
    {
        self.scheduler.is_due()
    }

    /// Draws a number uniformly from 0.1 up to, but not including, 1, from
    /// the clock's generator. Nothing else of the engine changes.
    pub fn draw_onset(&mut self) -> (drawn: Fixed)
        ensures
            DRAW_LOW <= drawn < ONE,
            final(self)@ == old(self)@,
            final(self).new_grain_hook == old(self).new_grain_hook,
    {
        self.scheduler.draw()
    }

    /// Processes one input frame: moves the clock on, starts the first idle
    /// grain where an onset fires and tells the observer of it, mixes the
    /// grains, writes the input plus the fed back mix to the delay line and
    /// returns the output frame.
    ///
    /// `log_draw` is the negated logarithm of a number from `draw_onset`.
    /// It sets the interval to the next onset where this frame fires one
    /// (`onset_due` tells), and is ignored where it does not.
    ///
    /// Where a grain starts and there is an observer, the observer has been
    /// called with the current duration: what it ensures of that call
    /// holds.
    pub fn process(&mut self, input_frame: Frame, log_draw: Fixed) -> (output: Frame)
        requires
            old(self)@.wf(),
            old(self).hook_ready(),
        ensures
            output == old(self)@.output(input_frame),
            final(self)@ == old(self)@.processed(input_frame, log_draw),
            final(self)@.wf(),
            final(self).new_grain_hook == old(self).new_grain_hook,
            old(self)@.starts_grain() ==> (old(self).new_grain_hook matches Some(hook)
                ==> call_ensures(hook, (old(self).duration,), ())),
    {
        proof {
            old(self)@.lemma_processed_wf(input_frame, log_draw);
        }
        let should_start_new_grain = self.scheduler.advance(log_draw);
        if should_start_new_grain {
            let started = self.activate_grain();
            if started {
                match &self.new_grain_hook {
                    Some(new_grain_hook) => new_grain_hook(self.duration),
                    None => {},
                }
            }
        }
        self.render(input_frame)
    }

    /// Processes one input frame as `process` does, but leaves the observer
    /// alone: whether a grain started is returned with the output frame.
    pub fn process_frame(&mut self, input_frame: Frame, log_draw: Fixed) -> (result: (Frame, bool))
        requires
            old(self)@.wf(),
        ensures
            result.0 == old(self)@.output(input_frame),
            result.1 == old(self)@.starts_grain(),
            final(self)@ == old(self)@.processed(input_frame, log_draw),
            final(self)@.wf(),
            final(self).new_grain_hook == old(self).new_grain_hook,
    {
        proof {
            old(self)@.lemma_processed_wf(input_frame, log_draw);
        }
        let should_start_new_grain = self.scheduler.advance(log_draw);
        let mut started = false;
        if should_start_new_grain {
            started = self.activate_grain();
        }
        (self.render(input_frame), started)
    }

    /// Mixes the grains, writes the input plus the fed back mix to the delay
    /// line and returns the output frame.
    fn render(&mut self, input_frame: Frame) -> (output: Frame)
        requires
            old(self)@.history.wf(),
        ensures
            output == output_frame(
                input_frame,
                mixed(old(self)@.grains, old(self)@.history),
                old(self).wet_dry,
                old(self).volume,
            ),
            final(self)@ == (Engine {
                grains: all_advanced(old(self)@.grains),
                history: old(self)@.history.written(
                    feedback_frame(
                        input_frame,
                        mixed(old(self)@.grains, old(self)@.history),
                        old(self).feedback,
                    ),
                ),
                ..old(self)@
            }),
            final(self).new_grain_hook == old(self).new_grain_hook,
    {
        let synthesized_frame = self.synthesize_active_grains();
        let feedback_frame = self.get_feedback_frame(input_frame, synthesized_frame);
        self.delay_line.write_and_advance(feedback_frame);
        self.get_output_frame(input_frame, synthesized_frame)
    }

    /// The output frame for an input frame and the grains' mix.
    pub fn get_output_frame(&self, input: Frame, synthesized: Frame) -> (output: Frame)
        ensures
            output == output_frame(input, synthesized, self.wet_dry, self.volume),
    {
        let dry = fx_sub(ONE, self.wet_dry);
        (
            fx_mul(
                fx_add(fx_mul(fx_neg(input.0), dry), fx_mul(synthesized.0, self.wet_dry)),
                self.volume,
            ),
            fx_mul(
                fx_add(fx_mul(fx_neg(input.1), dry), fx_mul(synthesized.1, self.wet_dry)),
                self.volume,
            ),
        )
    }

    /// The frame to write to the delay line for an input frame and the
    /// grains' mix.
    pub fn get_feedback_frame(&self, input: Frame, synthesized: Frame) -> (frame: Frame)
        ensures
            frame == feedback_frame(input, synthesized, self.feedback),
    {
        (
            fx_add(input.0, fx_mul(synthesized.0, self.feedback)),
            fx_add(input.1, fx_mul(synthesized.1, self.feedback)),
        )
    }

    /// Takes the next frame of every playing grain and mixes them.
    pub fn synthesize_active_grains(&mut self) -> (mix: Frame)
        requires
            old(self)@.history.wf(),
        ensures
            mix == mixed(old(self)@.grains, old(self)@.history),
            final(self)@ == (Engine { grains: all_advanced(old(self)@.grains), ..old(self)@ }),
            final(self).new_grain_hook == old(self).new_grain_hook,
    {
        let ghost before = self@.grains;
        let ghost history = self@.history;
        let mut num_active_grains: usize = 0;
        let mut left: i128 = 0;
        let mut right: i128 = 0;
        let mut i: usize = 0;
        while i < MAX_GRAINS
            invariant
                i <= MAX_GRAINS,
                before.len() == MAX_GRAINS,
                self@ == (Engine { grains: self@.grains, ..old(self)@ }),
                self.new_grain_hook == old(self).new_grain_hook,
                history == old(self)@.history,
                history.wf(),
                before == old(self)@.grains,
                forall|j: int| 0 <= j < i ==> self.grains_pool@[j] == before[j].advanced(),
                forall|j: int| i <= j < MAX_GRAINS ==> self.grains_pool@[j] == before[j],
                num_active_grains == active_count(before.subrange(0, i as int)),
                num_active_grains <= i,
                left == output_total(before.subrange(0, i as int), history).0,
                right == output_total(before.subrange(0, i as int), history).1,
                -i * 0x8000_0000_0000_0000 <= left <= i * 0x8000_0000_0000_0000,
                -i * 0x8000_0000_0000_0000 <= right <= i * 0x8000_0000_0000_0000,
            decreases MAX_GRAINS - i,
        {
            assert(before.subrange(0, i + 1).drop_last() =~= before.subrange(0, i as int));
            assert(before.subrange(0, i + 1).last() == before[i as int]);
            if self.grains_pool[i].is_active == true {
                let (left_grain, right_grain) = self.grains_pool[i].process(&self.delay_line);
                left = left + left_grain as i128;
                right = right + right_grain as i128;
                num_active_grains += 1;
            }
            i += 1;
        }
        assert(before.subrange(0, MAX_GRAINS as int) =~= before);
        assert(self@.grains =~= all_advanced(before));
        if num_active_grains > 0 {
            let count = num_active_grains as i128;
            return (
                fx_mul(saturating(wide_quotient(left, count)), MIX_GAIN),
                fx_mul(saturating(wide_quotient(right, count)), MIX_GAIN),
            );
        }
        SILENT_FRAME
    }

    /// Starts the first idle grain of the pool with the current settings and
    /// says whether there was one. A pool in which every grain plays is left
    /// as it is.
    pub fn activate_grain(&mut self) -> (started: bool)
        ensures
            started == has_idle(old(self)@.grains),
            final(self)@ == (Engine {
                grains: with_onset(
                    old(self)@.grains,
                    old(self).position,
                    old(self).duration,
                    old(self).pitch,
                ),
                ..old(self)@
            }),
            final(self).new_grain_hook == old(self).new_grain_hook,
    {
        let mut i: usize = 0;
        while i < MAX_GRAINS
            invariant
                i <= MAX_GRAINS,
                *self == *old(self),
                forall|j: int| 0 <= j < i ==> (#[trigger] self.grains_pool@[j]).is_active,
            decreases MAX_GRAINS - i,
        {
            if self.grains_pool[i].is_active == false {
                proof {
                    assert(is_first_idle(self@.grains, i as int));
                    assert(has_idle(self@.grains));
                    Engine::lemma_first_idle(self@.grains);
                    assert(first_idle(self@.grains) == i);
                }
                self.grains_pool[i].activate(self.position, self.duration, self.pitch);
                assert(self@.grains =~= with_onset(
                    old(self)@.grains,
                    old(self).position,
                    old(self).duration,
                    old(self).pitch,
                ));
                return true;
            }
            i += 1;
        }
        false
    }

    /// Sets the delay at which grains started from now on read.
    pub fn set_position(&mut self, position: Fixed)
        ensures
            final(self)@ == (Engine { position, ..old(self)@ }),
            final(self).new_grain_hook == old(self).new_grain_hook,
    {
        self.position = position;
    }

    /// Sets the density that the clock's next draw is measured against.
    pub fn set_density(&mut self, density: Fixed)
        ensures
            final(self)@ == (Engine {
                scheduler: Clock { density, ..old(self)@.scheduler },
                ..old(self)@
            }),
            final(self).new_grain_hook == old(self).new_grain_hook,
    {
        self.scheduler.set_density(density);
    }

    /// Sets the duration of grains started from now on.
    pub fn set_duration(&mut self, duration: Fixed)
        ensures
            final(self)@ == (Engine { duration, ..old(self)@ }),
            final(self).new_grain_hook == old(self).new_grain_hook,
    {
        self.duration = duration;
    }

    /// Sets the output volume.
    pub fn set_volume(&mut self, volume: Fixed)
        ensures
            final(self)@ == (Engine { volume, ..old(self)@ }),
            final(self).new_grain_hook == old(self).new_grain_hook,
    {
        self.volume = volume;
    }

    /// Sets or removes the observer of new grains.
    pub fn set_new_grain_hook(&mut self, new_grain_hook: Option<H>)
        ensures
            final(self).new_grain_hook == new_grain_hook,
            final(self)@ == old(self)@,
    {
        self.new_grain_hook = new_grain_hook;
    }

    /// Sets the share of the mix that goes back into the delay line.
    pub fn set_feedback(&mut self, feedback: Fixed)
        ensures
            final(self)@ == (Engine { feedback, ..old(self)@ }),
            final(self).new_grain_hook == old(self).new_grain_hook,
    {
        self.feedback = feedback;
    }

    /// Sets the weight of the mix in the output.
    pub fn set_wet_dry(&mut self, wet_dry: Fixed)
        ensures
            final(self)@ == (Engine { wet_dry, ..old(self)@ }),
            final(self).new_grain_hook == old(self).new_grain_hook,
    {
        self.wet_dry = wet_dry;
    }

    /// Sets the pitch of grains started from now on.
    pub fn set_pitch(&mut self, pitch: Fixed)
        ensures
            final(self)@ == (Engine { pitch, ..old(self)@ }),
            final(self).new_grain_hook == old(self).new_grain_hook,
    {
        self.pitch = pitch;
    }
}

} // verus!
