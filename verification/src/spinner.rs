//! The spinner that animates the loading indicator.

use vstd::prelude::*;

verus! {

/// The number of glyphs in one turn of the spinner.
pub const SPINNER_PERIOD: usize = 8;

/// The glyphs of the spinner, in the order in which they are shown: braille
/// patterns with one dot missing, the gap moving round.
pub open spec fn spinner_glyphs() -> Seq<char> {
    seq![
        '\u{28fe}',
        '\u{28fd}',
        '\u{28fb}',
        '\u{28bf}',
        '\u{287f}',
        '\u{28df}',
        '\u{28ef}',
        '\u{28f7}',
    ]
}

/// The glyph for a loading frame. The spinner advances by one glyph per
/// frame and starts over after `SPINNER_PERIOD` frames.
pub fn spinner_glyph(tick: usize) -> (glyph: char)
    ensures
        glyph == spinner_glyphs()[(tick % SPINNER_PERIOD) as int],
{
    let position = tick % SPINNER_PERIOD;
    if position == 0 {
        '\u{28fe}'
    } else if position == 1 {
        '\u{28fd}'
    } else if position == 2 {
        '\u{28fb}'
    } else if position == 3 {
        '\u{28bf}'
    } else if position == 4 {
        '\u{287f}'
    } else if position == 5 {
        '\u{28df}'
    } else if position == 6 {
        '\u{28ef}'
    } else {
        '\u{28f7}'
    }
}

} // verus!
