use vstd::prelude::*;

pub mod noise_channel;
pub mod pulse_channel;
pub mod wave_channel;

verus! {

} // verus!
