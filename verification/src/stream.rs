//! Choice of an output configuration for a track.

use vstd::prelude::*;

verus! {

/// Why no output stream can be built for a track.
#[derive(Clone, Copy, Debug, PartialEq, Eq, Structural)]
pub enum StreamError {
    /// The output device offers no configuration with the track's channel
    /// count.
    NoMatchingConfig,
}

/// The output configuration chosen for a track: which of the device's
/// configurations to use, and the sample rate to run it at.
#[derive(Clone, Copy, Debug, PartialEq, Eq, Structural)]
pub struct StreamConfig {
    /// Position of the chosen configuration among those the device offers.
    pub index: usize,
    pub channels: u16,
    pub sample_rate: u32,
}

/// Whether the configuration at `index` is the first one that has exactly
/// `channel_count` channels.
pub open spec fn first_match(supported: Seq<u16>, channel_count: usize, index: int) -> bool {
    &&& 0 <= index < supported.len()
    &&& supported[index] as int == channel_count as int
    &&& forall|j: int| 0 <= j < index ==> supported[j] as int != channel_count as int
}

/// Whether any configuration has exactly `channel_count` channels.
pub open spec fn has_match(supported: Seq<u16>, channel_count: usize) -> bool {
    exists|j: int| 0 <= j < supported.len() && supported[j] as int == channel_count as int
}

/// Picks the output configuration for a track: the first of the device's
/// configurations, given by their channel counts, that has exactly the
/// track's channel count, run at the track's sample rate.
pub fn get_config(supported: &Vec<u16>, channel_count: usize, sample_rate: u32) -> (config: Result<
    StreamConfig,
    StreamError,
>)
    ensures
        config is Ok <==> has_match(supported@, channel_count),
        config is Ok ==> {
            &&& first_match(supported@, channel_count, config->Ok_0.index as int)
            &&& config->Ok_0.channels as int == channel_count as int
            &&& config->Ok_0.sample_rate == sample_rate
        },
        config is Err ==> config->Err_0 == StreamError::NoMatchingConfig,
{
    let mut i: usize = 0;
    while i < supported.len()
        invariant
            i <= supported@.len(),
            forall|j: int| 0 <= j < i ==> supported@[j] as int != channel_count as int,
        decreases supported@.len() - i,
    {
        if supported[i] as usize == channel_count {
            return Ok(StreamConfig { index: i, channels: supported[i], sample_rate });
        }
        i = i + 1;
    }
    Err(StreamError::NoMatchingConfig)
}

} // verus!
