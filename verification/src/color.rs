use vstd::prelude::*;

verus! {

/// Top of the fixed-point brightness scale that patterns apply to a color:
/// `FULL_BRIGHTNESS` stands for 1.0, `0` for 0.0.
pub const FULL_BRIGHTNESS: u16 = 65535;

/// A single logical color in 8-bit-per-channel RGB form, the output format
/// the LED strip consumes. Immutable, cheaply copyable.
#[derive(Clone, Copy, Debug, PartialEq, Eq, Structural)]
pub struct Color {
    pub red: u8,
    pub green: u8,
    pub blue: u8,
}

/// One channel dimmed to the fraction `v / FULL_BRIGHTNESS`, rounding down.
pub open spec fn scale_channel(c: u8, v: u16) -> int {
    (c as int * v as int) / (FULL_BRIGHTNESS as int)
}

/// `c` dimmed channel-wise to the fraction `v / FULL_BRIGHTNESS`.
pub open spec fn scale_spec(c: Color, v: u16) -> Color {
    (Color {
        red: scale_channel(c.red, v) as u8,
        green: scale_channel(c.green, v) as u8,
        blue: scale_channel(c.blue, v) as u8,
    })
}

impl Color {
    pub fn new(red: u8, green: u8, blue: u8) -> (c: Color)
        ensures
            c == (Color { red, green, blue }),
    {
        Color { red, green, blue }
    }

    /// The "no light" color: all channels dark.
    pub fn black() -> (c: Color)
        ensures
            c == (Color { red: 0u8, green: 0u8, blue: 0u8 }),
    {
        Color { red: 0, green: 0, blue: 0 }
    }

    /// Dim this color to the fraction `v / FULL_BRIGHTNESS`.
    pub fn scale(self, v: u16) -> (out: Color)
        ensures
            out == scale_spec(self, v),
    {
        proof {
            lemma_scale_channel_bounds(self.red, v);
            lemma_scale_channel_bounds(self.green, v);
            lemma_scale_channel_bounds(self.blue, v);
        }
        Color {
            red: ((self.red as u32 * v as u32) / FULL_BRIGHTNESS as u32) as u8,
            green: ((self.green as u32 * v as u32) / FULL_BRIGHTNESS as u32) as u8,
            blue: ((self.blue as u32 * v as u32) / FULL_BRIGHTNESS as u32) as u8,
        }
    }
}

/// Dimming never brightens a channel, and the result always fits a byte.
pub proof fn lemma_scale_channel_bounds(c: u8, v: u16)
    ensures
        0 <= scale_channel(c, v) <= c,
{
    assert(0 <= c as int * v as int <= c as int * 65535) by (nonlinear_arith)
        requires
            0 <= c as int,
            0 <= v as int <= 65535,
    ;
    assert(c as int * v as int / 65535 <= c as int * 65535 / 65535) by (nonlinear_arith)
        requires
            c as int * v as int <= c as int * 65535,
            0 <= c as int * v as int,
    ;
    assert(c as int * 65535 / 65535 == c as int) by (nonlinear_arith);
}

} // verus!
