//! The onset clock: a countdown that fires a grain when it reaches zero and
//! is then set to a newly drawn interval.
//!
//! An interval is `ceil(-ln(u) / density * 1000)` for a number `u` taken
//! uniformly between 0.1 and 1. The clock owns the generator and draws `u`.
//! The logarithm needs floating point, which this library does not hold: the
//! caller takes it and hands `-ln(u)` to `advance`, which does the rest.
use rand::rngs::SmallRng;
use rand::{Rng, SeedableRng};
use vstd::prelude::*;

use crate::constants::INTERVAL_SCALE;
use crate::fixed::{ceiling, ceiling_of, fx_div, fx_mul, over, times, Fixed, ONE};

verus! {

/// The generator `rand::rngs::SmallRng`. Nothing is known of its state.
#[verifier::external_type_specification]
#[verifier::external_body]
pub struct ExSmallRng(SmallRng);

/// The seed of every clock's generator, so that runs can be reproduced.
pub const SEED: u64 = 10;

/// The least number that a clock draws: 0.1, rounded up.
pub const DRAW_LOW: Fixed = 429496730;

/// Calls `SmallRng::seed_from_u64`, which builds a generator from a seed.
/// Nothing is claimed of the generator.
#[verifier::external_body]
fn seeded(seed: u64) -> SmallRng {
    SmallRng::seed_from_u64(seed)
}

/// Calls `Rng::gen_range` on the half-open range from `low` to `high`. The
/// range must not be empty, or the call panics; the number drawn lies in
/// the range. Which number it is depends on the generator's state.
#[verifier::external_body]
fn draw_between(small_rng: &mut SmallRng, low: Fixed, high: Fixed) -> (drawn: Fixed)
    requires
        low < high,
    ensures
        low <= drawn < high,
{
    small_rng.gen_range(low..high)
}

/// What the onset clock counts with: all of its state but the generator.
pub struct Clock {
    /// Calls of `advance` left before the next onset.
    pub next_onset: int,
    /// The expected rate of onsets: the larger, the shorter the intervals.
    pub density: Fixed,
}

/// The interval that `log_draw` gives at a density, where `log_draw` is the
/// negated logarithm of the number drawn:
/// `ceil(log_draw / density * 1000)`, and 1 where that is not positive.
pub open spec fn interonset(log_draw: Fixed, density: Fixed) -> int {
    let steps = ceiling(times(over(log_draw, density), INTERVAL_SCALE) as int);
    if steps <= 0 {
        1
    } else {
        steps
    }
}

impl Clock {
    /// Whether the next call of `advance` fires an onset.
    pub open spec fn due(self) -> bool {
        self.next_onset == 0
    }

    /// The clock after one call of `advance` with `log_draw`: a due clock is
    /// set to the interval that `log_draw` gives at the current density; any
    /// other counts down by one.
    pub open spec fn advanced(self, log_draw: Fixed) -> Clock {
        if self.next_onset == 0 {
            Clock { next_onset: interonset(log_draw, self.density), ..self }
        } else {
            Clock { next_onset: self.next_onset - 1, ..self }
        }
    }

    /// The clock after one call of `advance` for each of `log_draws`, first
    /// to last.
    pub open spec fn advanced_all(self, log_draws: Seq<Fixed>) -> Clock
        decreases log_draws.len(),
    {
        if log_draws.len() == 0 {
            self
        } else {
            self.advanced_all(log_draws.drop_last()).advanced(log_draws.last())
        }
    }

    /// Every interval is at least one call long and fits the countdown.
    pub proof fn lemma_interonset_bounds(log_draw: Fixed, density: Fixed)
        ensures
            1 <= interonset(log_draw, density) <= 2147483648,
    {
    }

    /// A clock that fires is due again after exactly as many further calls as
    /// the interval it drew, and not before, whatever those calls hand in:
    /// one onset for each interval drawn.
    pub proof fn lemma_one_onset_per_interval(self, log_draw: Fixed, log_draws: Seq<Fixed>)
        requires
            self.due(),
            log_draws.len() <= interonset(log_draw, self.density),
        ensures
            self.advanced(log_draw).advanced_all(log_draws).next_onset == interonset(
                log_draw,
                self.density,
            ) - log_draws.len(),
            self.advanced(log_draw).advanced_all(log_draws).due() <==> log_draws.len()
                == interonset(log_draw, self.density),
    {
        Self::lemma_interonset_bounds(log_draw, self.density);
        self.advanced(log_draw).lemma_counts_down(log_draws);
    }

    /// While the countdown lasts, each call takes one from it and leaves the
    /// density alone.
    pub proof fn lemma_counts_down(self, log_draws: Seq<Fixed>)
        requires
            log_draws.len() <= self.next_onset,
        ensures
            self.advanced_all(log_draws).next_onset == self.next_onset - log_draws.len(),
            self.advanced_all(log_draws).density == self.density,
        decreases log_draws.len(),
    {
        if log_draws.len() > 0 {
            self.lemma_counts_down(log_draws.drop_last());
        }
    }
}

/// The onset clock.
pub struct Scheduler {
    /// Calls of `advance` left before the next onset.
    pub next_onset: usize,
    /// The expected rate of onsets: the larger, the shorter the intervals.
    pub density: Fixed,
    /// The generator that the intervals are drawn from.
    pub small_rng: SmallRng,
}

impl View for Scheduler {
    type V = Clock;

    open spec fn view(&self) -> Clock {
        Clock { next_onset: self.next_onset as int, density: self.density }
    }
}

impl Scheduler {
    /// A clock at the given density that fires at its first call. Its
    /// generator starts from `SEED`.
    pub fn new(density: Fixed) -> (scheduler: Scheduler)
        ensures
            scheduler@ == (Clock { next_onset: 0, density }),
            scheduler@.due(),
    {
        Scheduler { next_onset: 0, density, small_rng: seeded(SEED) }
    }

    /// Whether the next call of `advance` fires an onset, and so needs a
    /// draw.
    pub fn is_due(&self) -> (due: bool)
        ensures
            due == self@.due(),
    {
        self.next_onset == 0
    }

    /// Draws a number uniformly from 0.1 up to, but not including, 1. The
    /// countdown and the density stay as they are.
    pub fn draw(&mut self) -> (drawn: Fixed)
        ensures
            DRAW_LOW <= drawn < ONE,
            final(self)@ == old(self)@,
    {
        draw_between(&mut self.small_rng, DRAW_LOW, ONE)
    }

    /// Moves the clock on by one call and says whether an onset fires. A
    /// clock that fires sets its countdown from `log_draw`, the negated
    /// logarithm of a number drawn; one that does not ignores it.
    pub fn advance(&mut self, log_draw: Fixed) -> (fired: bool)
        ensures
            fired == old(self)@.due(),
            final(self)@ == old(self)@.advanced(log_draw),
            final(self).small_rng == old(self).small_rng,
    {
        if self.next_onset == 0 {
            self.next_onset = self.calculate_next_interonset(log_draw);
            return true;
        }
        self.next_onset -= 1;
        false
    }

    /// The number of calls from one onset to the next, for the negated
    /// logarithm of a number drawn and the current density. It is at least
    /// one.
    pub fn calculate_next_interonset(&self, log_draw: Fixed) -> (interval: usize)
        ensures
            interval == interonset(log_draw, self.density),
            interval >= 1,
    {
        let steps = ceiling_of(fx_mul(fx_div(log_draw, self.density), INTERVAL_SCALE));
        if steps <= 0 {
            return 1;
        }
        steps as usize
    }

    /// Sets the density that the next interval is measured against. The
    /// countdown in progress is not touched.
    pub fn set_density(&mut self, density: Fixed)
        ensures
            final(self)@ == (Clock { density, ..old(self)@ }),
            final(self).small_rng == old(self).small_rng,
    {
        self.density = density;
    }
}

} // verus!
