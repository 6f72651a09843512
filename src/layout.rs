use vstd::prelude::*;

verus! {

/// Channels stored per pixel.
pub const CHANNELS: usize = 3;

/// Number of channel samples held by a buffer of `num_pixels` pixels, or
/// `None` when that count does not fit in `usize`.
pub fn sample_count(num_pixels: usize) -> (r: Option<usize>)
    ensures
        r == (if CHANNELS * num_pixels <= usize::MAX {
            Some((CHANNELS * num_pixels) as usize)
        } else {
            None::<usize>
        }),
{
    num_pixels.checked_mul(CHANNELS)
}

} // verus!
