use vstd::prelude::*;
use crate::FRAMERATE;
use crate::chase::ChaseMode;
use crate::chase::ChaseState;
use crate::color::Color;
use crate::cycle::lemma_mod_small;
use crate::equalizer::EqualizerState;
use crate::error::LedError;
use crate::pulse::PulseState;
use crate::rainbow::RainbowLoopState;
use crate::rainbow::RainbowState;
use crate::solid::SolidState;

verus! {

/// Seconds per envelope cycle of the pulse pattern.
pub const PULSE_PERIOD: u16 = 2;

/// Seconds per hue cycle of the rainbow pattern.
pub const RAINBOW_PERIOD: u16 = 5;

/// Seconds a full chase sweep is meant to take.
pub const CHASE_PERIOD: u16 = 3;

/// Seconds per band revolution of the traveling rainbow.
pub const RAINBOW_LOOP_PERIOD: u16 = 4;

/// The fixed registry of pattern names.
#[derive(Clone, Copy, Debug, PartialEq, Eq, Structural)]
pub enum Pattern {
    Off,
    Solid,
    Pulse,
    Rainbow,
    RainbowLoop,
    Chase,
    ChaseLoop,
    Equalizer,
}

/// The pattern a name selects, if the registry knows the name.
pub open spec fn pattern_for_name(s: Seq<char>) -> Option<Pattern> {
    if s == "off"@ {
        Some(Pattern::Off)
    } else if s == "solid"@ {
        Some(Pattern::Solid)
    } else if s == "pulse"@ {
        Some(Pattern::Pulse)
    } else if s == "rainbow"@ {
        Some(Pattern::Rainbow)
    } else if s == "rainbow_loop"@ {
        Some(Pattern::RainbowLoop)
    } else if s == "chase"@ {
        Some(Pattern::Chase)
    } else if s == "chase_loop"@ {
        Some(Pattern::ChaseLoop)
    } else if s == "equalizer"@ {
        Some(Pattern::Equalizer)
    } else {
        None
    }
}

/// Character-for-character equality of two strings.
fn str_eq(a: &str, b: &str) -> (r: bool)
    ensures
        r == (a@ == b@),
{
    let x: String = a.to_owned();
    let y: String = b.to_owned();
    x == y
}

/// Look a pattern up by name in the fixed registry. An unknown name is
/// rejected, and rejection is the only outcome besides the exact match.
pub fn parse_pattern(name: &str) -> (r: Result<Pattern, LedError>)
    ensures
        r == match pattern_for_name(name@) {
            Some(p) => Ok::<Pattern, LedError>(p),
            None => Err::<Pattern, LedError>(LedError::UnknownPattern),
        },
{
    if str_eq(name, "off") {
        Ok(Pattern::Off)
    } else if str_eq(name, "solid") {
        Ok(Pattern::Solid)
    } else if str_eq(name, "pulse") {
        Ok(Pattern::Pulse)
    } else if str_eq(name, "rainbow") {
        Ok(Pattern::Rainbow)
    } else if str_eq(name, "rainbow_loop") {
        Ok(Pattern::RainbowLoop)
    } else if str_eq(name, "chase") {
        Ok(Pattern::Chase)
    } else if str_eq(name, "chase_loop") {
        Ok(Pattern::ChaseLoop)
    } else if str_eq(name, "equalizer") {
        Ok(Pattern::Equalizer)
    } else {
        Err(LedError::UnknownPattern)
    }
}

/// The state of whichever pattern currently owns the strip.
pub enum ActivePattern {
    Off,
    Solid(SolidState),
    Pulse(PulseState),
    Rainbow(RainbowState),
    RainbowLoop(RainbowLoopState),
    Chase(ChaseState),
    ChaseLoop(ChaseState),
    Equalizer(EqualizerState),
}

/// A freshly started chase state: dark trail, first position lit next,
/// sub-steps and falloff derived from the frame rate and the period.
pub open spec fn chase_fresh(s: ChaseState, mode: ChaseMode, led_count: int, color: Color) -> bool {
    &&& s.wf()
    &&& s.color == color
    &&& s.cursor.count == led_count
    &&& s.cursor.mode == mode
    &&& s.cursor.visits@ == 1
    &&& s.values@ == Seq::new(led_count as nat, |i: int| 0u16)
    &&& s.index == 0
    &&& s.step == 0
    &&& s.steps_per_led as int == (FRAMERATE as int * CHASE_PERIOD as int) / led_count
    &&& s.decay_den == 5 * CHASE_PERIOD
    &&& s.decay_num == 5 * CHASE_PERIOD - 1
}

/// What a pattern's state looks like the instant it is started: fully
/// determined by the pattern, the strip length and the current bus color.
pub open spec fn is_fresh_for(p: Pattern, a: ActivePattern, led_count: int, color: Color) -> bool {
    match (p, a) {
        (Pattern::Off, ActivePattern::Off) => true,
        (Pattern::Solid, ActivePattern::Solid(s)) => {
            &&& s.led_count == led_count
            &&& s.color == color
        },
        (Pattern::Pulse, ActivePattern::Pulse(s)) => {
            &&& s.led_count == led_count
            &&& s.resolution == FRAMERATE * PULSE_PERIOD
            &&& s.phase == 0
            &&& s.color == color
        },
        (Pattern::Rainbow, ActivePattern::Rainbow(s)) => {
            &&& s.led_count == led_count
            &&& s.resolution == FRAMERATE * RAINBOW_PERIOD
            &&& s.pos == 0
        },
        (Pattern::RainbowLoop, ActivePattern::RainbowLoop(s)) => {
            &&& s.led_count == led_count
            &&& s.resolution == FRAMERATE * RAINBOW_LOOP_PERIOD
            &&& s.shift == 0
        },
        (Pattern::Chase, ActivePattern::Chase(s)) => chase_fresh(
            s,
            ChaseMode::Bounce,
            led_count,
            color,
        ),
        (Pattern::ChaseLoop, ActivePattern::ChaseLoop(s)) => chase_fresh(
            s,
            ChaseMode::Wrap,
            led_count,
            color,
        ),
        (Pattern::Equalizer, ActivePattern::Equalizer(s)) => {
            &&& s.led_count == led_count
            &&& s.color == color
            &&& s.last_seq == 0
            &&& s.magnitudes@ == Seq::new(led_count as nat, |i: int| 0u8)
        },
        _ => false,
    }
}

/// A pattern state after a bus update: patterns that modulate the bus
/// color take the new color, the self-hued rainbows ignore it, and
/// nothing else of any state changes.
pub open spec fn recolored(a: ActivePattern, c: Color) -> ActivePattern {
    match a {
        ActivePattern::Off => ActivePattern::Off,
        ActivePattern::Solid(s) => ActivePattern::Solid(SolidState { color: c, ..s }),
        ActivePattern::Pulse(s) => ActivePattern::Pulse(PulseState { color: c, ..s }),
        ActivePattern::Rainbow(s) => ActivePattern::Rainbow(s),
        ActivePattern::RainbowLoop(s) => ActivePattern::RainbowLoop(s),
        ActivePattern::Chase(s) => ActivePattern::Chase(ChaseState { color: c, ..s }),
        ActivePattern::ChaseLoop(s) => ActivePattern::ChaseLoop(ChaseState { color: c, ..s }),
        ActivePattern::Equalizer(s) => ActivePattern::Equalizer(EqualizerState { color: c, ..s }),
    }
}

/// The pattern supervisor: the single-slot color bus and the at most one
/// pattern that owns the strip. Replacing the active slot is the
/// capability handover - the outgoing pattern's state is dropped before
/// the incoming one exists, so two patterns never hold the strip at once.
pub struct Supervisor {
    pub led_count: usize,
    pub color: Color,
    pub active: Option<ActivePattern>,
}

impl Supervisor {
    pub open spec fn wf(self) -> bool {
        2 <= self.led_count <= 0x1000_0000
    }

    pub fn new(led_count: usize, default_color: Color) -> (s: Supervisor)
        requires
            2 <= led_count <= 0x1000_0000,
        ensures
            s.wf(),
            s.led_count == led_count,
            s.color == default_color,
            s.active is None,
    {
        Supervisor { led_count, color: default_color, active: None }
    }

    /// Switch the strip to the named pattern. An unknown name is rejected
    /// before anything changes, and the previous pattern keeps running.
    /// On success the previous pattern's state is discarded and the new
    /// pattern starts fresh from the strip length and the bus color.
    pub fn select_pattern(&mut self, name: &str) -> (r: Result<(), LedError>)
        requires
            old(self).wf(),
        ensures
            final(self).wf(),
            final(self).led_count == old(self).led_count,
            final(self).color == old(self).color,
            match pattern_for_name(name@) {
                Some(p) => {
                    &&& r == Ok::<(), LedError>(())
                    &&& match final(self).active {
                        Some(a) => is_fresh_for(p, a, old(self).led_count as int, old(self).color),
                        None => false,
                    }
                },
                None => {
                    &&& r == Err::<(), LedError>(LedError::UnknownPattern)
                    &&& *final(self) == *old(self)
                },
            },
    {
        let p = match parse_pattern(name) {
            Ok(p) => p,
            Err(e) => {
                return Err(e);
            },
        };
        let fresh = match p {
            Pattern::Off => ActivePattern::Off,
            Pattern::Solid => ActivePattern::Solid(SolidState::new(self.led_count, self.color)),
            Pattern::Pulse => ActivePattern::Pulse(
                PulseState::new(self.led_count, FRAMERATE * PULSE_PERIOD, self.color),
            ),
            Pattern::Rainbow => ActivePattern::Rainbow(
                RainbowState::new(self.led_count, FRAMERATE * RAINBOW_PERIOD),
            ),
            Pattern::RainbowLoop => ActivePattern::RainbowLoop(
                RainbowLoopState::new(self.led_count, FRAMERATE * RAINBOW_LOOP_PERIOD),
            ),
            Pattern::Chase => ActivePattern::Chase(
                ChaseState::new(self.led_count, ChaseMode::Bounce, self.color, FRAMERATE, CHASE_PERIOD),
            ),
            Pattern::ChaseLoop => ActivePattern::ChaseLoop(
                ChaseState::new(self.led_count, ChaseMode::Wrap, self.color, FRAMERATE, CHASE_PERIOD),
            ),
            Pattern::Equalizer => ActivePattern::Equalizer(
                EqualizerState::new(self.led_count, self.color),
            ),
        };
        self.active = Some(fresh);
        Ok(())
    }

    /// Push a color update onto the bus: the latest value wins, and the
    /// running pattern observes it on its next wake.
    pub fn set_color(&mut self, c: Color)
        ensures
            final(self).wf() == old(self).wf(),
            final(self).led_count == old(self).led_count,
            final(self).color == c,
            final(self).active == match old(self).active {
                Some(a) => Some(recolored(a, c)),
                None => None::<ActivePattern>,
            },
    {
        self.color = c;
        match &mut self.active {
            Some(a) => {
                match a {
                    ActivePattern::Off => {},
                    ActivePattern::Solid(s) => s.set_color(c),
                    ActivePattern::Pulse(s) => s.set_color(c),
                    ActivePattern::Rainbow(_) => {},
                    ActivePattern::RainbowLoop(_) => {},
                    ActivePattern::Chase(s) => s.set_color(c),
                    ActivePattern::ChaseLoop(s) => s.set_color(c),
                    ActivePattern::Equalizer(s) => s.set_color(c),
                }
            },
            None => {},
        }
    }
}

/// Render-relevant equality of two chase states: everything that this or
/// any later frame depends on, which is every field but the ghost visit
/// counter.
pub open spec fn chase_same(x: ChaseState, y: ChaseState) -> bool {
    &&& x.color == y.color
    &&& x.values@ == y.values@
    &&& x.index == y.index
    &&& x.step == y.step
    &&& x.steps_per_led == y.steps_per_led
    &&& x.decay_num == y.decay_num
    &&& x.decay_den == y.decay_den
    &&& x.cursor.count == y.cursor.count
    &&& x.cursor.mode == y.cursor.mode
    &&& x.cursor.pos == y.cursor.pos
    &&& x.cursor.up == y.cursor.up
}

/// Two active states render the same frames, now and on every later
/// tick fed with the same events.
pub open spec fn same_render(a: ActivePattern, b: ActivePattern) -> bool {
    match (a, b) {
        (ActivePattern::Off, ActivePattern::Off) => true,
        (ActivePattern::Solid(x), ActivePattern::Solid(y)) => x == y,
        (ActivePattern::Pulse(x), ActivePattern::Pulse(y)) => x == y,
        (ActivePattern::Rainbow(x), ActivePattern::Rainbow(y)) => x == y,
        (ActivePattern::RainbowLoop(x), ActivePattern::RainbowLoop(y)) => x == y,
        (ActivePattern::Chase(x), ActivePattern::Chase(y)) => chase_same(x, y),
        (ActivePattern::ChaseLoop(x), ActivePattern::ChaseLoop(y)) => chase_same(x, y),
        (ActivePattern::Equalizer(x), ActivePattern::Equalizer(y)) => {
            &&& x.led_count == y.led_count
            &&& x.color == y.color
            &&& x.last_seq == y.last_seq
            &&& x.magnitudes@ == y.magnitudes@
        },
        _ => false,
    }
}

/// law (clean handover): a fresh pattern state is a function of the
/// selected pattern, the strip length and the bus color alone. Whatever
/// two patterns were running before, after switching both supervisors to
/// the same pattern the two active states render identically, and each
/// frame they render is a complete frame of the new pattern - nothing of
/// the outgoing pattern's colors or phase survives into it.
pub proof fn lemma_switch_leaves_no_residue(
    p: Pattern,
    a: ActivePattern,
    b: ActivePattern,
    led_count: int,
    color: Color,
)
    requires
        is_fresh_for(p, a, led_count, color),
        is_fresh_for(p, b, led_count, color),
    ensures
        same_render(a, b),
{
    match (a, b) {
        (ActivePattern::Chase(x), ActivePattern::Chase(y)) => {
            lemma_mod_small(1, 2 * x.cursor.count as int - 2);
            assert(chase_same(x, y));
        },
        (ActivePattern::ChaseLoop(x), ActivePattern::ChaseLoop(y)) => {
            lemma_mod_small(1, x.cursor.count as int);
            assert(chase_same(x, y));
        },
        _ => {},
    }
}

} // verus!
