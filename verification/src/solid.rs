use vstd::prelude::*;
use crate::color::Color;
use crate::strip::fill_frame;
use crate::strip::fill_spec;

verus! {

/// State of the `solid` pattern: purely event-driven, it fills the whole
/// strip with the latest bus color on every update and has no clock.
pub struct SolidState {
    pub led_count: usize,
    pub color: Color,
}

/// The solid state after a bus update: only the color changes.
pub open spec fn solid_with(s: SolidState, c: Color) -> SolidState {
    (SolidState { led_count: s.led_count, color: c })
}

/// The frame a solid state renders: the strip filled with its color.
pub open spec fn solid_frame(s: SolidState) -> Seq<Color> {
    fill_spec(s.color, s.led_count as int)
}

impl SolidState {
    pub fn new(led_count: usize, color: Color) -> (s: SolidState)
        ensures
            s == (SolidState { led_count, color }),
    {
        SolidState { led_count, color }
    }

    /// Apply a bus update: the next rendered frame shows the new color.
    pub fn set_color(&mut self, c: Color)
        ensures
            *final(self) == solid_with(*old(self), c),
    {
        self.color = c;
    }

    /// Render the current frame.
    pub fn frame(&self) -> (frame: Vec<Color>)
        ensures
            frame@ == solid_frame(*self),
    {
        fill_frame(self.color, self.led_count)
    }
}

/// law: a running solid pattern applies bus updates in order. After the
/// updates c1 and then c2, the next two rendered frames are the strip
/// filled with c1 and then the strip filled with c2, whatever color the
/// pattern showed before.
pub proof fn lemma_solid_applies_updates_in_order(s: SolidState, c1: Color, c2: Color)
    ensures
        solid_frame(solid_with(s, c1)) == fill_spec(c1, s.led_count as int),
        solid_frame(solid_with(solid_with(s, c1), c2)) == fill_spec(c2, s.led_count as int),
{
}

} // verus!
