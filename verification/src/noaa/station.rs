//! What the dashboard derives from the description of a station.

use vstd::prelude::*;
use vstd::string::StrSliceExecFns;

verus! {

/// The part of `path` behind its last slash, or all of it where it has none.
pub open spec fn last_segment(path: Seq<char>) -> Seq<char>
    decreases path.len(),
{
    if path.len() == 0 {
        path
    } else if path.last() == '/' {
        Seq::empty()
    } else {
        last_segment(path.drop_last()).push(path.last())
    }
}

/// `last_segment` cuts at the last slash: the result is the end of the path
/// from some position on, holds no slash, and either is the whole path or
/// stands right behind a slash.
pub proof fn lemma_last_segment_is_suffix(path: Seq<char>) -> (start: int)
    ensures
        0 <= start <= path.len(),
        last_segment(path) == path.subrange(start, path.len() as int),
        !last_segment(path).contains('/'),
        start == 0 || path[start - 1] == '/',
    decreases path.len(),
{
    if path.len() == 0 {
        0
    } else if path.last() == '/' {
        path.len() as int
    } else {
        lemma_last_segment_is_suffix(path.drop_last())
    }
}

/// The identifier of a station's forecast zone: the last segment of the
/// address of its zone forecast.
///
/// An address without a slash is its own last segment, and an address that
/// ends in a slash has an empty one.
pub fn zone_id(forecast_url: &str) -> (zone: &str)
    ensures
        zone@ == last_segment(forecast_url@),
{
    let length = forecast_url.unicode_len();
    let mut start: usize = 0;
    let mut position: usize = 0;
    for c in chars: forecast_url.chars()
        invariant
            length == forecast_url@.len(),
            chars.seq() == forecast_url@,
            position == chars.index(),
            start <= position,
            last_segment(forecast_url@.take(position as int)) == forecast_url@.subrange(
                start as int,
                position as int,
            ),
    {
        proof {
            let seen = forecast_url@.take(position + 1);
            assert(seen.drop_last() == forecast_url@.take(position as int));
            assert(forecast_url@.subrange(start as int, position as int).push(c)
                == forecast_url@.subrange(start as int, position + 1));
        }
        position = position + 1;
        if c == '/' {
            start = position;
        }
    }
    assert(forecast_url@.take(length as int) == forecast_url@);
    forecast_url.substring_char(start, length)
}

} // verus!
