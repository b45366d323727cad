//! size of the mixer used to combine all speakers into a stereo channel
use vstd::prelude::*;

verus! {

/// Number of channel strips in the mixer.  This supports 12 people in a room,
/// two channels each.
pub const MIXER_CHANNELS: usize = 24;

} // verus!
