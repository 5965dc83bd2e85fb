use vstd::prelude::*;

verus! {

/// Accepts a requested playback volume as a percentage: only `0..=100` is accepted.
pub fn checked_volume(requested: i32) -> (r: Option<u8>)
    ensures
        0 <= requested <= 100 ==> r == Some(requested as u8),
        !(0 <= requested <= 100) ==> r is None,
{
    if requested < 0 || requested > 100 {
        None
    } else {
        Some(requested as u8)
    }
}

} // verus!
