use vstd::prelude::*;
use crate::color::Color;
use crate::color::scale_spec;
use crate::error::LedError;

verus! {

/// The little-endian 32-bit sequence number in the first four bytes of
/// an equalizer datagram.
pub open spec fn le_u32(b: Seq<u8>) -> int
    recommends
        b.len() >= 4,
{
    b[0] + b[1] * 0x100 + b[2] * 0x1_0000 + b[3] * 0x100_0000
}

/// The mathematical content of an equalizer pattern's stored state.
pub struct EqModel {
    pub led_count: int,
    pub last_seq: int,
    pub magnitudes: Seq<u8>,
}

/// A datagram is accepted iff it carries exactly one magnitude per LED
/// after the sequence number, and its sequence number strictly exceeds
/// the last accepted one.
pub open spec fn accepts(s: EqModel, b: Seq<u8>) -> bool {
    &&& b.len() == 4 + s.led_count
    &&& le_u32(b) > s.last_seq
}

/// The stored state after a datagram arrives: an accepted frame replaces
/// the magnitudes and advances the sequence; everything else leaves the
/// state exactly as it was.
pub open spec fn apply_datagram(s: EqModel, b: Seq<u8>) -> EqModel {
    if accepts(s, b) {
        EqModel {
            led_count: s.led_count,
            last_seq: le_u32(b),
            magnitudes: b.subrange(4, b.len() as int),
        }
    } else {
        s
    }
}

/// What the listener reports for a datagram: which of the two drop
/// reasons applied, or that the frame was taken.
pub open spec fn datagram_verdict(s: EqModel, b: Seq<u8>) -> Result<(), LedError> {
    if b.len() != 4 + s.led_count {
        Err(LedError::MalformedFrame)
    } else if le_u32(b) <= s.last_seq {
        Err(LedError::StaleFrame)
    } else {
        Ok(())
    }
}

/// The brightness level of a spectrum magnitude `m`: the exact fraction
/// `m / 255` on the fixed-point brightness scale.
pub open spec fn magnitude_level(m: u8) -> u16 {
    (m * 257) as u16
}

/// State of the `equalizer` pattern: the latest accepted spectrum frame,
/// rendered positionally, each magnitude driving its own LED. Before any
/// frame is accepted the magnitudes are all zero, so the strip is dark.
pub struct EqualizerState {
    pub led_count: usize,
    pub color: Color,
    pub last_seq: u32,
    pub magnitudes: Vec<u8>,
}

impl View for EqualizerState {
    type V = EqModel;

    open spec fn view(&self) -> EqModel {
        EqModel {
            led_count: self.led_count as int,
            last_seq: self.last_seq as int,
            magnitudes: self.magnitudes@,
        }
    }
}

impl EqualizerState {
    pub open spec fn wf(self) -> bool {
        &&& self.led_count <= 0x1000_0000
        &&& self.magnitudes@.len() == self.led_count
    }

    pub fn new(led_count: usize, color: Color) -> (s: EqualizerState)
        requires
            led_count <= 0x1000_0000,
        ensures
            s.wf(),
            s.led_count == led_count,
            s.color == color,
            s.last_seq == 0,
            s.magnitudes@ == Seq::new(led_count as nat, |i: int| 0u8),
    {
        let mut magnitudes: Vec<u8> = Vec::new();
        let mut i: usize = 0;
        while i < led_count
            invariant
                i <= led_count,
                magnitudes@.len() == i,
                forall|j: int| 0 <= j < i ==> magnitudes@[j] == 0u8,
            decreases led_count - i,
        {
            magnitudes.push(0);
            i = i + 1;
        }
        proof {
            assert(magnitudes@ =~= Seq::new(led_count as nat, |i: int| 0u8));
        }
        EqualizerState { led_count, color, last_seq: 0, magnitudes }
    }

    /// Apply a bus update: the stored frame keeps showing, tinted by the
    /// new color from the next render on.
    pub fn set_color(&mut self, c: Color)
        ensures
            *final(self) == (EqualizerState { color: c, ..*old(self) }),
    {
        self.color = c;
    }

    /// Take in one datagram. A payload of the wrong length is rejected as
    /// malformed, one whose sequence number does not exceed the last
    /// accepted one as stale; both drops leave the stored frame exactly
    /// as it was. Only a well-sized datagram with a strictly greater
    /// sequence number replaces the magnitudes.
    pub fn handle_datagram(&mut self, buf: &Vec<u8>) -> (r: Result<(), LedError>)
        requires
            old(self).wf(),
        ensures
            final(self).wf(),
            final(self).color == old(self).color,
            final(self).led_count == old(self).led_count,
            final(self)@ == apply_datagram(old(self)@, buf@),
            r == datagram_verdict(old(self)@, buf@),
    {
        if buf.len() != self.led_count + 4 {
            return Err(LedError::MalformedFrame);
        }
        let seq: u32 = buf[0] as u32 + buf[1] as u32 * 0x100 + buf[2] as u32 * 0x1_0000 + buf[3]
            as u32 * 0x100_0000;
        if seq <= self.last_seq {
            return Err(LedError::StaleFrame);
        }
        self.last_seq = seq;
        let mut magnitudes: Vec<u8> = Vec::new();
        let mut i: usize = 4;
        while i < buf.len()
            invariant
                4 <= i <= buf.len(),
                magnitudes@.len() == i - 4,
                forall|j: int| 0 <= j < i - 4 ==> magnitudes@[j] == buf@[j + 4],
            decreases buf.len() - i,
        {
            magnitudes.push(buf[i]);
            i = i + 1;
        }
        proof {
            assert(magnitudes@ =~= buf@.subrange(4, buf@.len() as int));
        }
        self.magnitudes = magnitudes;
        Ok(())
    }

    /// Render one frame: magnitude `m` at position `i` drives LED `i`
    /// directly with the color dimmed to `m / 255` - no smoothing, no
    /// falloff.
    pub fn frame(&self) -> (frame: Vec<Color>)
        requires
            self.wf(),
        ensures
            frame@.len() == self.led_count,
            forall|i: int|
                0 <= i < self.led_count ==> frame@[i] == scale_spec(
                    self.color,
                    magnitude_level(self.magnitudes@[i]),
                ),
    {
        let mut frame: Vec<Color> = Vec::new();
        let mut i: usize = 0;
        while i < self.led_count
            invariant
                self.wf(),
                i <= self.led_count,
                frame@.len() == i,
                forall|j: int|
                    0 <= j < i ==> frame@[j] == scale_spec(
                        self.color,
                        magnitude_level(self.magnitudes@[j]),
                    ),
            decreases self.led_count - i,
        {
            let m = self.magnitudes[i];
            frame.push(self.color.scale(m as u16 * 257));
            i = i + 1;
        }
        frame
    }
}

/// law: while the stored magnitudes are all zero - as they are before
/// any frame is accepted - the render step produces "off": a zero
/// magnitude darkens every channel of any color.
pub proof fn lemma_zero_magnitude_is_dark(c: Color)
    ensures
        scale_spec(c, magnitude_level(0u8)) == (Color { red: 0u8, green: 0u8, blue: 0u8 }),
{
    assert(c.red as int * 0 == 0) by (nonlinear_arith);
    assert(c.green as int * 0 == 0) by (nonlinear_arith);
    assert(c.blue as int * 0 == 0) by (nonlinear_arith);
}

/// law: the accepted sequence number never goes backward, a dropped
/// datagram leaves the state untouched, and an accepted one installs
/// exactly the datagram's magnitudes.
pub proof fn lemma_sequence_monotonic(s: EqModel, b: Seq<u8>)
    ensures
        apply_datagram(s, b).last_seq >= s.last_seq,
        !accepts(s, b) ==> apply_datagram(s, b) == s,
        accepts(s, b) ==> apply_datagram(s, b).last_seq == le_u32(b) && apply_datagram(
            s,
            b,
        ).magnitudes == b.subrange(4, b.len() as int),
{
}

/// law (best-latest delivery): when well-sized datagrams with sequence
/// numbers 5, 3, 5 and 7 arrive in that order at a state that has not yet
/// reached sequence 5, only the first and the last are applied. The
/// reordered 3 and the duplicate 5 are dropped without effect, and the
/// state settles on the magnitudes of the datagram numbered 7.
pub proof fn lemma_drops_stale_and_duplicate(
    s: EqModel,
    b5: Seq<u8>,
    b3: Seq<u8>,
    b5x: Seq<u8>,
    b7: Seq<u8>,
)
    requires
        s.last_seq < 5,
        b5.len() == 4 + s.led_count,
        b3.len() == 4 + s.led_count,
        b5x.len() == 4 + s.led_count,
        b7.len() == 4 + s.led_count,
        le_u32(b5) == 5,
        le_u32(b3) == 3,
        le_u32(b5x) == 5,
        le_u32(b7) == 7,
    ensures
        accepts(s, b5),
        !accepts(apply_datagram(s, b5), b3),
        !accepts(apply_datagram(s, b5), b5x),
        accepts(apply_datagram(s, b5), b7),
        apply_datagram(apply_datagram(apply_datagram(apply_datagram(s, b5), b3), b5x), b7)
            == (EqModel {
            led_count: s.led_count,
            last_seq: 7,
            magnitudes: b7.subrange(4, b7.len() as int),
        }),
{
}

} // verus!
