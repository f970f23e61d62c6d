use vstd::prelude::*;
use crate::color::Color;
use crate::color::scale_spec;
use crate::cycle::lemma_mod_small;
use crate::cycle::lemma_mod_succ;
use crate::cycle::ping_pong_cycle;
use crate::cycle::ping_pong_pos;
use vstd::arithmetic::div_mod::lemma_mod_bound;

verus! {

/// How the lit point travels along the strip: bounce reverses direction
/// at the ends, wrap jumps back to the first position.
#[derive(Clone, Copy, Debug, PartialEq, Eq, Structural)]
pub enum ChaseMode {
    Bounce,
    Wrap,
}

/// The position the chase visits on its k-th stop when bouncing over
/// `count` positions: 0 up to count-1 and back down, with neither end
/// visited twice in a row.
pub open spec fn bounce_index(count: int, k: int) -> int {
    ping_pong_pos(count, k % ping_pong_cycle(count))
}

/// The position the chase visits on its k-th stop when wrapping around.
pub open spec fn wrap_index(count: int, k: int) -> int {
    k % count
}

/// The position of the k-th stop for either travel mode.
pub open spec fn visit_index(mode: ChaseMode, count: int, k: int) -> int {
    match mode {
        ChaseMode::Bounce => bounce_index(count, k),
        ChaseMode::Wrap => wrap_index(count, k),
    }
}

/// A restartable, infinite source of chase positions, consumed one per
/// index advance. `visits` counts how many positions it has handed out.
pub struct ChaseCursor {
    pub count: usize,
    pub mode: ChaseMode,
    pub pos: usize,
    pub up: bool,
    pub visits: Ghost<nat>,
}

impl ChaseCursor {
    pub open spec fn wf(self) -> bool {
        &&& 2 <= self.count <= 0x1000_0000
        &&& match self.mode {
            ChaseMode::Wrap => {
                &&& self.pos as int == wrap_index(self.count as int, self.visits@ as int)
                &&& self.up
            },
            ChaseMode::Bounce => {
                &&& self.pos as int == bounce_index(self.count as int, self.visits@ as int)
                &&& self.up == (self.visits@ as int % ping_pong_cycle(self.count as int)
                    < self.count - 1)
            },
        }
    }

    pub fn new(count: usize, mode: ChaseMode) -> (c: ChaseCursor)
        requires
            2 <= count <= 0x1000_0000,
        ensures
            c.wf(),
            c.count == count,
            c.mode == mode,
            c.visits@ == 0,
    {
        proof {
            lemma_mod_small(0, count as int);
            lemma_mod_small(0, ping_pong_cycle(count as int));
        }
        ChaseCursor { count, mode, pos: 0, up: true, visits: Ghost(0) }
    }

    /// law (chase visiting order): the next position to light. Bouncing
    /// over N positions visits 0,1,...,N-1,N-2,...,1 and repeats, never
    /// counting an endpoint twice; wrapping visits 0,1,...,N-1,0 and
    /// repeats. Both follow the closed forms `bounce_index`/`wrap_index`.
    pub fn next(&mut self) -> (i: usize)
        requires
            old(self).wf(),
        ensures
            final(self).wf(),
            final(self).count == old(self).count,
            final(self).mode == old(self).mode,
            final(self).visits@ == old(self).visits@ + 1,
            i < old(self).count,
            i as int == visit_index(old(self).mode, old(self).count as int, old(self).visits@ as int),
    {
        let i = self.pos;
        match self.mode {
            ChaseMode::Wrap => {
                proof {
                    lemma_mod_bound(self.visits@ as int, self.count as int);
                    lemma_mod_succ(self.visits@ as int, self.count as int);
                }
                if self.pos + 1 == self.count {
                    self.pos = 0;
                } else {
                    self.pos = self.pos + 1;
                }
            },
            ChaseMode::Bounce => {
                proof {
                    lemma_mod_bound(self.visits@ as int, ping_pong_cycle(self.count as int));
                    lemma_mod_succ(self.visits@ as int, ping_pong_cycle(self.count as int));
                }
                if self.up {
                    self.pos = self.pos + 1;
                    self.up = self.pos < self.count - 1;
                } else {
                    self.pos = self.pos - 1;
                    self.up = self.pos == 0;
                }
            },
        }
        self.visits = Ghost(self.visits@ + 1);
        i
    }
}

/// One brightness value after a tick's multiplicative falloff
/// `decay_num / decay_den`, rounding down.
pub open spec fn decayed(v: u16, decay_num: u32, decay_den: u32) -> int {
    (v as int * decay_num as int) / (decay_den as int)
}

/// The falloff never brightens a value, so it always fits back in place.
pub proof fn lemma_decay_bounds(v: u16, decay_num: u32, decay_den: u32)
    requires
        0 < decay_num < decay_den,
    ensures
        0 <= decayed(v, decay_num, decay_den) <= v,
{
    assert(0 <= v as int * decay_num as int <= v as int * decay_den as int) by (nonlinear_arith)
        requires
            0 <= v as int,
            0 < decay_num as int <= decay_den as int,
    ;
    assert(v as int * decay_num as int / (decay_den as int) <= v as int * decay_den as int / (
    decay_den as int)) by (nonlinear_arith)
        requires
            0 <= v as int * decay_num as int <= v as int * decay_den as int,
            0 < decay_den as int,
    ;
    assert(v as int * decay_den as int / (decay_den as int) == v as int) by (nonlinear_arith)
        requires
            0 < decay_den as int,
    ;
}

/// State of the chase patterns: a single lit point travels along the
/// strip while every position decays toward zero each tick by a fixed
/// multiplicative falloff, leaving a fading trail. The lit position holds
/// for `steps_per_led + 1` ticks so that motion stays smooth when there
/// are more frames than LEDs; the caller supplies the gamma-corrected
/// ramp value of each sub-step.
pub struct ChaseState {
    pub color: Color,
    pub values: Vec<u16>,
    pub cursor: ChaseCursor,
    pub index: usize,
    pub step: u16,
    pub steps_per_led: u16,
    pub decay_num: u32,
    pub decay_den: u32,
}

impl ChaseState {
    pub open spec fn wf(self) -> bool {
        &&& self.cursor.wf()
        &&& self.values@.len() == self.cursor.count
        &&& self.index < self.cursor.count
        &&& self.step <= self.steps_per_led
        &&& 0 < self.decay_num < self.decay_den <= 65535
    }

    /// Start a chase over `count` positions. The falloff per tick is
    /// `1 - 1/(5 * period)`: the fifth is the fixed falloff share, spread
    /// over the period so that the period controls the smear length
    /// independently of the frame rate.
    pub fn new(count: usize, mode: ChaseMode, color: Color, framerate: u16, period: u16) -> (s:
        ChaseState)
        requires
            2 <= count <= 0x1000_0000,
            1 <= period <= 13107,
            framerate as int * period as int <= 65535,
        ensures
            s.wf(),
            s.color == color,
            s.values@ == Seq::new(count as nat, |i: int| 0u16),
            s.cursor.count == count,
            s.cursor.mode == mode,
            s.cursor.visits@ == 1,
            s.index == 0,
            s.step == 0,
            s.steps_per_led as int == (framerate as int * period as int) / (count as int),
            s.decay_den == 5 * period,
            s.decay_num == s.decay_den - 1,
    {
        let mut cursor = ChaseCursor::new(count, mode);
        let index = cursor.next();
        proof {
            lemma_mod_small(0, count as int);
            lemma_mod_small(0, ping_pong_cycle(count as int));
        }
        let mut values: Vec<u16> = Vec::new();
        let mut i: usize = 0;
        while i < count
            invariant
                i <= count,
                values@.len() == i,
                forall|j: int| 0 <= j < i ==> values@[j] == 0u16,
            decreases count - i,
        {
            values.push(0);
            i = i + 1;
        }
        proof {
            assert(values@ =~= Seq::new(count as nat, |j: int| 0u16));
        }
        let total: u32 = framerate as u32 * period as u32;
        let steps_per_led: u16 = (total / count as u32) as u16;
        let decay_den: u32 = 5 * period as u32;
        ChaseState {
            color,
            values,
            cursor,
            index,
            step: 0,
            steps_per_led,
            decay_num: decay_den - 1,
            decay_den,
        }
    }

    /// Apply a bus update: the trail keeps fading, new light comes in the
    /// new color.
    pub fn set_color(&mut self, c: Color)
        ensures
            *final(self) == (ChaseState { color: c, ..*old(self) }),
    {
        self.color = c;
    }

    /// One clock tick. Every position decays by the falloff; the lit
    /// position is then set to `lit`, the caller's gamma-corrected ramp
    /// value for the current sub-step. When the sub-steps at this
    /// position are spent, the chase moves on to the next position.
    pub fn tick(&mut self, lit: u16)
        requires
            old(self).wf(),
        ensures
            final(self).wf(),
            final(self).color == old(self).color,
            final(self).steps_per_led == old(self).steps_per_led,
            final(self).decay_num == old(self).decay_num,
            final(self).decay_den == old(self).decay_den,
            final(self).cursor.count == old(self).cursor.count,
            final(self).cursor.mode == old(self).cursor.mode,
            final(self).values@.len() == old(self).values@.len(),
            forall|j: int|
                0 <= j < old(self).values@.len() && j != old(self).index ==> final(self).values@[j]
                    as int == decayed(
                    old(self).values@[j],
                    old(self).decay_num,
                    old(self).decay_den,
                ),
            final(self).values@[old(self).index as int] == lit,
            if old(self).step == old(self).steps_per_led {
                &&& final(self).index as int == visit_index(
                    old(self).cursor.mode,
                    old(self).cursor.count as int,
                    old(self).cursor.visits@ as int,
                )
                &&& final(self).step == 0
                &&& final(self).cursor.visits@ == old(self).cursor.visits@ + 1
            } else {
                &&& final(self).index == old(self).index
                &&& final(self).step == old(self).step + 1
                &&& final(self).cursor.visits@ == old(self).cursor.visits@
            },
    {
        let count = self.values.len();
        let mut j: usize = 0;
        while j < count
            invariant
                j <= count,
                self.values@.len() == count,
                0 < self.decay_num < self.decay_den <= 65535,
                self.decay_num == old(self).decay_num,
                self.decay_den == old(self).decay_den,
                forall|t: int|
                    0 <= t < j ==> self.values@[t] as int == decayed(
                        old(self).values@[t],
                        self.decay_num,
                        self.decay_den,
                    ),
                forall|t: int| j <= t < count ==> self.values@[t] == old(self).values@[t],
                self.color == old(self).color,
                self.cursor == old(self).cursor,
                self.index == old(self).index,
                self.step == old(self).step,
                self.steps_per_led == old(self).steps_per_led,
            decreases count - j,
        {
            let v = self.values[j];
            proof {
                lemma_decay_bounds(v, self.decay_num, self.decay_den);
                assert(v as int * self.decay_num as int <= 65535 * 65534) by (nonlinear_arith)
                    requires
                        0 <= v as int <= 65535,
                        0 <= self.decay_num as int <= 65534,
                ;
            }
            self.values[j] = ((v as u32 * self.decay_num) / self.decay_den) as u16;
            j = j + 1;
        }
        self.values[self.index] = lit;
        if self.step == self.steps_per_led {
            self.index = self.cursor.next();
            self.step = 0;
        } else {
            self.step = self.step + 1;
        }
    }

    /// Render one frame: each position shows the color dimmed to that
    /// position's brightness value, the lit point bright and the trail
    /// behind it fading.
    pub fn frame(&self) -> (frame: Vec<Color>)
        ensures
            frame@.len() == self.values@.len(),
            forall|j: int|
                0 <= j < self.values@.len() ==> frame@[j] == scale_spec(
                    self.color,
                    self.values@[j],
                ),
    {
        let mut frame: Vec<Color> = Vec::new();
        let mut j: usize = 0;
        let count = self.values.len();
        while j < count
            invariant
                j <= count,
                self.values@.len() == count,
                frame@.len() == j,
                forall|t: int|
                    0 <= t < j ==> frame@[t] == scale_spec(self.color, self.values@[t]),
            decreases count - j,
        {
            frame.push(self.color.scale(self.values[j]));
            j = j + 1;
        }
        frame
    }
}

} // verus!
