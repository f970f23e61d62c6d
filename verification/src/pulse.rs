use vstd::prelude::*;
use crate::color::Color;
use crate::color::scale_spec;
use crate::cycle::lemma_mod_small;
use crate::cycle::lemma_mod_succ;
use crate::cycle::ping_pong_cycle;
use crate::cycle::ping_pong_pos;
use crate::strip::fill_frame;
use crate::strip::is_fill;

verus! {

/// State of the `pulse` pattern: a periodic brightness envelope applied
/// to the current bus color. `resolution` is the number of forward ramp
/// samples per cycle (framerate x period); `phase` walks the whole
/// rise-and-fall cycle of `2 * resolution - 2` samples, so the envelope
/// climbs smoothly from dark to full and back without repeating the
/// endpoints. Bus updates replace the color without resetting the phase.
pub struct PulseState {
    pub led_count: usize,
    pub resolution: u16,
    pub phase: u16,
    pub color: Color,
}

impl PulseState {
    pub open spec fn wf(self) -> bool {
        &&& 2 <= self.resolution <= 32767
        &&& (self.phase as int) < ping_pong_cycle(self.resolution as int)
    }

    pub fn new(led_count: usize, resolution: u16, color: Color) -> (s: PulseState)
        requires
            2 <= resolution <= 32767,
        ensures
            s == (PulseState { led_count, resolution, phase: 0u16, color }),
            s.wf(),
    {
        PulseState { led_count, resolution, phase: 0, color }
    }

    /// One clock tick: advance to the next envelope sample, wrapping at
    /// the end of the rise-and-fall cycle.
    pub fn tick(&mut self)
        requires
            old(self).wf(),
        ensures
            final(self).wf(),
            final(self).phase as int == (old(self).phase + 1) % ping_pong_cycle(
                old(self).resolution as int,
            ),
            final(self).led_count == old(self).led_count,
            final(self).resolution == old(self).resolution,
            final(self).color == old(self).color,
    {
        let cycle: u16 = 2 * self.resolution - 2;
        proof {
            lemma_mod_small(self.phase as int, cycle as int);
            lemma_mod_succ(self.phase as int, cycle as int);
        }
        if self.phase + 1 == cycle {
            self.phase = 0;
        } else {
            self.phase = self.phase + 1;
        }
    }

    /// Apply a bus update: the color changes, the phase keeps running.
    pub fn set_color(&mut self, c: Color)
        ensures
            *final(self) == (PulseState {
                led_count: old(self).led_count,
                resolution: old(self).resolution,
                phase: old(self).phase,
                color: c,
            }),
    {
        self.color = c;
    }

    /// The current ramp sample as an exact fraction of the cycle:
    /// numerator over `resolution`. The envelope value for the frame is a
    /// smooth easing of this fraction, computed by the caller.
    pub fn ramp(&self) -> (r: (u16, u16))
        requires
            self.wf(),
        ensures
            r.0 as int == ping_pong_pos(self.resolution as int, self.phase as int),
            r.1 == self.resolution,
            r.0 < r.1,
    {
        let num: u16 = if self.phase < self.resolution {
            self.phase
        } else {
            2 * self.resolution - 2 - self.phase
        };
        (num, self.resolution)
    }

    /// Render one frame at envelope value `level`: the whole strip filled
    /// with the color dimmed to `level / FULL_BRIGHTNESS`.
    pub fn frame(&self, level: u16) -> (frame: Vec<Color>)
        ensures
            is_fill(frame@, scale_spec(self.color, level), self.led_count as int),
    {
        fill_frame(self.color.scale(level), self.led_count)
    }
}

} // verus!
