//! Log layout arithmetic: the log format pads every record's target to the
//! widest target seen so far, so that columns line up.

use vstd::prelude::*;

verus! {

/// The padding width after one more target was seen: the running maximum of
/// the widths, in characters. The caller keeps the running value and hands
/// it back in on the next record.
pub fn max_target_width(previous_max: usize, target: &str) -> (r: usize)
    ensures
        r == if target@.len() > previous_max {
            target@.len()
        } else {
            previous_max as nat
        },
{
    let len = target.unicode_len();
    if previous_max < len {
        len
    } else {
        previous_max
    }
}

} // verus!
