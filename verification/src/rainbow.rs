use vstd::prelude::*;
use crate::cycle::lemma_mod_small;
use crate::cycle::lemma_mod_succ;

verus! {

/// State of the `rainbow` pattern: the whole strip shows one hue in
/// unison, cycling over `resolution` samples (framerate x period). The
/// hue fraction feeds the sinebow color model, which the caller computes;
/// the pattern ignores the color bus and generates its own colors.
pub struct RainbowState {
    pub led_count: usize,
    pub resolution: u16,
    pub pos: u16,
}

impl RainbowState {
    pub open spec fn wf(self) -> bool {
        &&& self.resolution >= 1
        &&& self.pos < self.resolution
    }

    pub fn new(led_count: usize, resolution: u16) -> (s: RainbowState)
        requires
            resolution >= 1,
        ensures
            s == (RainbowState { led_count, resolution, pos: 0u16 }),
            s.wf(),
    {
        RainbowState { led_count, resolution, pos: 0 }
    }

    /// The current hue as the exact fraction `pos / resolution` of the
    /// hue circle.
    pub fn hue(&self) -> (h: (u16, u16))
        requires
            self.wf(),
        ensures
            h.0 == self.pos,
            h.1 == self.resolution,
            h.0 < h.1,
    {
        (self.pos, self.resolution)
    }

    /// One clock tick: step to the next hue sample, wrapping at the end
    /// of the cycle.
    pub fn tick(&mut self)
        requires
            old(self).wf(),
        ensures
            final(self).wf(),
            final(self).pos as int == (old(self).pos + 1) % (old(self).resolution as int),
            final(self).led_count == old(self).led_count,
            final(self).resolution == old(self).resolution,
    {
        proof {
            lemma_mod_small(self.pos as int, self.resolution as int);
            lemma_mod_succ(self.pos as int, self.resolution as int);
        }
        if self.pos + 1 == self.resolution {
            self.pos = 0;
        } else {
            self.pos = self.pos + 1;
        }
    }
}

/// The hue of pixel `i` in a traveling rainbow band, as a numerator over
/// the common denominator `count * resolution`: the fractional part of
/// `i / count + shift / resolution`.
pub open spec fn loop_hue_num(count: int, resolution: int, shift: int, i: int) -> int {
    (i * resolution + shift * count) % (count * resolution)
}

/// State of the `rainbow_loop` pattern: each LED position holds a fixed
/// hue offset proportional to its index, spreading the full hue range
/// across the strip; every tick all offsets shift together, so the band
/// travels. Like `rainbow`, it ignores the color bus.
pub struct RainbowLoopState {
    pub led_count: usize,
    pub resolution: u16,
    pub shift: u16,
}

impl RainbowLoopState {
    pub open spec fn wf(self) -> bool {
        &&& 1 <= self.led_count <= 0x1000_0000
        &&& self.resolution >= 1
        &&& self.shift < self.resolution
    }

    pub fn new(led_count: usize, resolution: u16) -> (s: RainbowLoopState)
        requires
            1 <= led_count <= 0x1000_0000,
            resolution >= 1,
        ensures
            s == (RainbowLoopState { led_count, resolution, shift: 0u16 }),
            s.wf(),
    {
        RainbowLoopState { led_count, resolution, shift: 0 }
    }

    /// One clock tick: shift every pixel's hue one sample onward,
    /// wrapping at the end of the cycle.
    pub fn tick(&mut self)
        requires
            old(self).wf(),
        ensures
            final(self).wf(),
            final(self).shift as int == (old(self).shift + 1) % (old(self).resolution as int),
            final(self).led_count == old(self).led_count,
            final(self).resolution == old(self).resolution,
    {
        proof {
            lemma_mod_small(self.shift as int, self.resolution as int);
            lemma_mod_succ(self.shift as int, self.resolution as int);
        }
        if self.shift + 1 == self.resolution {
            self.shift = 0;
        } else {
            self.shift = self.shift + 1;
        }
    }

    /// The common denominator of every pixel's hue fraction.
    pub fn hue_den(&self) -> (d: u64)
        requires
            self.wf(),
        ensures
            d == self.led_count as int * self.resolution as int,
            d >= 1,
    {
        proof {
            assert(1 <= self.led_count as int * self.resolution as int <= 0x1000_0000 * 65535int)
                by (nonlinear_arith)
                requires
                    1 <= self.led_count as int <= 0x1000_0000,
                    1 <= self.resolution as int <= 65535,
            ;
        }
        self.led_count as u64 * self.resolution as u64
    }

    /// The hue numerator of every pixel at the current shift: pixel `i`
    /// shows the hue `hues[i] / hue_den()` of the hue circle.
    pub fn hues(&self) -> (h: Vec<u64>)
        requires
            self.wf(),
        ensures
            h@.len() == self.led_count,
            forall|i: int|
                0 <= i < self.led_count ==> h@[i] as int == loop_hue_num(
                    self.led_count as int,
                    self.resolution as int,
                    self.shift as int,
                    i,
                ),
    {
        let den = self.hue_den();
        proof {
            assert(self.shift as int * self.led_count as int <= 65535 * 0x1000_0000int)
                by (nonlinear_arith)
                requires
                    0 <= self.shift as int <= 65535,
                    0 <= self.led_count as int <= 0x1000_0000,
            ;
        }
        let offset: u64 = self.shift as u64 * self.led_count as u64;
        let mut h: Vec<u64> = Vec::new();
        let mut i: usize = 0;
        while i < self.led_count
            invariant
                self.wf(),
                i <= self.led_count,
                h@.len() == i,
                den == self.led_count as int * self.resolution as int,
                den >= 1,
                offset == self.shift as int * self.led_count as int,
                offset <= 65535 * 0x1000_0000int,
                forall|j: int|
                    0 <= j < i ==> h@[j] as int == loop_hue_num(
                        self.led_count as int,
                        self.resolution as int,
                        self.shift as int,
                        j,
                    ),
            decreases self.led_count - i,
        {
            proof {
                assert(i as int * self.resolution as int <= 0x1000_0000 * 65535int)
                    by (nonlinear_arith)
                    requires
                        0 <= i as int <= 0x1000_0000,
                        0 <= self.resolution as int <= 65535,
                ;
            }
            let num: u64 = (i as u64 * self.resolution as u64 + offset) % den;
            h.push(num);
            i = i + 1;
        }
        h
    }
}

} // verus!
