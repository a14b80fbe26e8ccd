//! Moving the presentation layer's preset selection cursor: the one
//! decision the key-handling loop makes, kept free of any terminal concern.

use vstd::prelude::*;

verus! {

/// Move the cursor one entry up, stopping at the first entry.
pub fn move_selection_up(current: i16) -> (r: i16)
    ensures
        r == if current <= 0 { 0i16 } else { (current - 1) as i16 },
{
    if current <= 0 {
        0
    } else {
        current - 1
    }
}

/// Move the cursor one entry down, stopping at the last of `preset_count`
/// entries.
pub fn move_selection_down(current: i16, preset_count: usize) -> (r: i16)
    requires
        1 <= preset_count <= 0x7fff,
    ensures
        r as int == if current as int >= preset_count as int - 1 {
            preset_count as int - 1
        } else {
            current as int + 1
        },
{
    let last: i16 = (preset_count as i16) - 1;
    if current >= last {
        last
    } else {
        current + 1
    }
}

} // verus!
