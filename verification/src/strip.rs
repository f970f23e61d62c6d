use vstd::prelude::*;
use crate::color::Color;

verus! {

/// `frame` assigns `color` to every one of `count` LED slots.
pub open spec fn is_fill(frame: Seq<Color>, color: Color, count: int) -> bool {
    &&& frame.len() == count
    &&& forall|i: int| 0 <= i < count ==> frame[i] == color
}

/// The frame that lights every one of `count` LED slots with `color`.
pub open spec fn fill_spec(color: Color, count: int) -> Seq<Color> {
    Seq::new(count as nat, |i: int| color)
}

/// One complete frame that lights every LED with the same color.
pub fn fill_frame(color: Color, count: usize) -> (frame: Vec<Color>)
    ensures
        is_fill(frame@, color, count as int),
        frame@ == fill_spec(color, count as int),
{
    let mut frame: Vec<Color> = Vec::new();
    let mut i: usize = 0;
    while i < count
        invariant
            i <= count,
            frame@.len() == i,
            forall|j: int| 0 <= j < i ==> frame@[j] == color,
        decreases count - i,
    {
        frame.push(color);
        i = i + 1;
    }
    proof {
        assert(frame@ =~= fill_spec(color, count as int));
    }
    frame
}

/// The frame that turns the whole strip dark.
pub fn off_frame(count: usize) -> (frame: Vec<Color>)
    ensures
        is_fill(frame@, (Color { red: 0u8, green: 0u8, blue: 0u8 }), count as int),
{
    fill_frame(Color::black(), count)
}

} // verus!
