//! A grain: one enveloped reading of the delay line, idle or playing.
use vstd::prelude::*;

use crate::constants::GRAIN_AMPLITUDE;
use crate::delay_line::{DelayLine, History};
use crate::fixed::{fx_add, fx_div, fx_mul, fx_sub, minus, over, plus, times, Fixed, MAX, ONE};
use crate::frame::{scale, scaled, Frame, SILENT_FRAME};
use crate::parabolic_envelope::ParabolicEnvelope;

verus! {

/// One slot of the grain pool.
#[derive(Clone, Copy, Debug)]
pub struct Grain {
    /// Whether the grain is playing.
    pub is_active: bool,
    /// The length of the grain in frames of the delay line.
    pub duration_samples: Fixed,
    /// The amplitude curve of the grain.
    pub envelope: ParabolicEnvelope,
    /// The delay at which the grain starts to read.
    pub position: Fixed,
    /// How far the grain has played: the sum of the pitch over its steps.
    pub num_samples_played: Fixed,
    /// The rate at which the grain's read pointer moves.
    pub pitch: Fixed,
}

impl Grain {
    /// An idle grain that holds the given settings.
    pub open spec fn idle(position: Fixed, duration_samples: Fixed, pitch: Fixed) -> Grain {
        Grain {
            is_active: false,
            duration_samples,
            envelope: ParabolicEnvelope::fresh(duration_samples, GRAIN_AMPLITUDE),
            position,
            num_samples_played: 0,
            pitch,
        }
    }

    /// The grain after a request to start: a playing grain stays as it is;
    /// an idle one takes the settings, starts at progress zero and gets a
    /// fresh envelope that lasts `duration_samples / pitch` steps.
    pub open spec fn activated(self, position: Fixed, duration_samples: Fixed, pitch: Fixed) -> Grain {
        if self.is_active {
            self
        } else {
            Grain {
                is_active: true,
                duration_samples,
                envelope: ParabolicEnvelope::fresh(over(duration_samples, pitch), GRAIN_AMPLITUDE),
                position,
                num_samples_played: 0,
                pitch,
            }
        }
    }

    /// The delay at which the grain reads next:
    /// `position + progress * (1 - pitch)`.
    pub open spec fn read_delay(self) -> Fixed {
        plus(self.position, times(self.num_samples_played, minus(ONE, self.pitch)))
    }

    /// The frame that the grain contributes next: silence when idle, else
    /// the delay line read at `read_delay`, scaled by the envelope's next
    /// amplitude.
    pub open spec fn output(self, history: History) -> Frame {
        if self.is_active {
            scaled(history.read(self.read_delay()), self.envelope.stepped().level())
        } else {
            SILENT_FRAME
        }
    }

    /// The grain after it has contributed a frame: an idle grain stays as it
    /// is; a playing one steps its envelope and adds the pitch to its
    /// progress, and falls idle with progress zero once that reaches the
    /// duration.
    pub open spec fn advanced(self) -> Grain {
        if self.is_active {
            let progress = plus(self.num_samples_played, self.pitch);
            if progress >= self.duration_samples {
                Grain {
                    is_active: false,
                    num_samples_played: 0,
                    envelope: self.envelope.stepped(),
                    ..self
                }
            } else {
                Grain { num_samples_played: progress, envelope: self.envelope.stepped(), ..self }
            }
        } else {
            self
        }
    }

    /// The grain after it has contributed `steps` frames.
    pub open spec fn advanced_by(self, steps: nat) -> Grain
        decreases steps,
    {
        if steps == 0 {
            self
        } else {
            self.advanced_by((steps - 1) as nat).advanced()
        }
    }

    /// A grain that starts to play with a positive pitch plays for exactly
    /// `steps` frames, where `steps` is the least number of steps of the
    /// pitch that reach the duration, and its envelope takes one step with
    /// each. It is idle after that, contributes silence, and stays as it is.
    pub proof fn lemma_lifetime(self, steps: nat, earlier: nat, history: History)
        requires
            self.is_active,
            self.num_samples_played == 0,
            self.pitch > 0,
            steps >= 1,
            (steps - 1) * self.pitch < self.duration_samples <= steps * self.pitch,
            earlier < steps,
        ensures
            self.advanced_by(earlier).is_active,
            self.advanced_by(earlier).num_samples_played == earlier * self.pitch,
            self.advanced_by(earlier).envelope == self.envelope.stepped_by(earlier),
            !self.advanced_by(steps).is_active,
            self.advanced_by(steps).output(history) == SILENT_FRAME,
            self.advanced_by(steps).advanced() == self.advanced_by(steps),
    {
        self.lemma_playing(steps, (steps - 1) as nat);
        self.lemma_playing(steps, earlier);
        let last = self.advanced_by((steps - 1) as nat);
        assert((steps - 1) * self.pitch + self.pitch == steps * self.pitch) by (nonlinear_arith);
        assert(plus(last.num_samples_played, last.pitch) >= self.duration_samples);
    }

    /// Until its progress reaches the duration, a playing grain keeps its
    /// settings and adds the pitch to its progress at each step.
    proof fn lemma_playing(self, steps: nat, earlier: nat)
        requires
            self.is_active,
            self.num_samples_played == 0,
            self.pitch > 0,
            steps >= 1,
            (steps - 1) * self.pitch < self.duration_samples,
            earlier < steps,
        ensures
            self.advanced_by(earlier).is_active,
            self.advanced_by(earlier).num_samples_played == earlier * self.pitch,
            self.advanced_by(earlier).envelope == self.envelope.stepped_by(earlier),
            self.advanced_by(earlier).pitch == self.pitch,
            self.advanced_by(earlier).duration_samples == self.duration_samples,
            self.advanced_by(earlier).position == self.position,
        decreases earlier,
    {
        if earlier == 0 {
            assert(0 * self.pitch == 0) by (nonlinear_arith);
        } else {
            self.lemma_playing(steps, (earlier - 1) as nat);
            let pitch = self.pitch as int;
            assert((earlier - 1) * pitch + pitch == earlier * pitch) by (nonlinear_arith);
            assert(earlier * pitch <= (steps - 1) * pitch) by (nonlinear_arith)
                requires
                    earlier <= steps - 1,
                    pitch > 0,
            ;
            assert(self.duration_samples <= MAX);
        }
    }

    /// An idle grain that holds the given settings.
    pub fn new(position: Fixed, duration_samples: Fixed, pitch: Fixed) -> (grain: Grain)
        ensures
            grain == Self::idle(position, duration_samples, pitch),
    {
        Grain {
            is_active: false,
            duration_samples,
            envelope: ParabolicEnvelope::new(duration_samples, GRAIN_AMPLITUDE),
            position,
            num_samples_played: 0,
            pitch,
        }
    }

    /// Contributes the grain's next frame and moves the grain on. An idle
    /// grain contributes silence and does not change.
    pub fn process(&mut self, delay_line: &DelayLine) -> (frame: Frame)
        requires
            delay_line@.wf(),
        ensures
            frame == old(self).output(delay_line@),
            *final(self) == old(self).advanced(),
            !old(self).is_active ==> frame == SILENT_FRAME && *final(self) == *old(self),
    {
        if self.is_active == false {
            return SILENT_FRAME;
        }
        let env = self.envelope.process();
        let delay = fx_add(self.position, fx_mul(self.num_samples_played, fx_sub(ONE, self.pitch)));
        let sample = delay_line.read(delay);
        self.num_samples_played = fx_add(self.num_samples_played, self.pitch);
        if self.num_samples_played >= self.duration_samples {
            self.is_active = false;
            self.num_samples_played = 0;
        }
        scale(sample, env)
    }

    /// Starts the grain with the given settings, unless it is playing: a
    /// playing grain is left exactly as it is.
    pub fn activate(&mut self, position: Fixed, duration_samples: Fixed, pitch: Fixed)
        ensures
            *final(self) == old(self).activated(position, duration_samples, pitch),
            old(self).is_active ==> *final(self) == *old(self),
            final(self).is_active,
    {
        if self.is_active == true {
            return ;
        }
        self.position = position;
        self.duration_samples = duration_samples;
        self.num_samples_played = 0;
        self.pitch = pitch;
        self.envelope = ParabolicEnvelope::new(fx_div(duration_samples, self.pitch), GRAIN_AMPLITUDE);
        self.is_active = true;
    }
}

} // verus!
