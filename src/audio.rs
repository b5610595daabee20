use vstd::prelude::*;

verus! {

/// A block of audio handed to a filter, as the values its native description
/// holds: the number of frames, and the number of channel slots.
/// The samples themselves stay with the host and are not held here.
#[derive(Clone, Copy, Debug, PartialEq, Eq, Structural)]
pub struct AudioDataContext {
    pub frames: u32,
    pub channels: usize,
}

impl AudioDataContext {
    /// Samples per channel.
    pub fn frames(&self) -> (r: usize)
        ensures
            r == self.frames,
    {
        self.frames as usize
    }

    pub fn channels(&self) -> (r: usize)
        ensures
            r == self.channels,
    {
        self.channels
    }

    /// The number of samples of `channel`, where there is such a channel.
    pub fn channel_len(&self, channel: usize) -> (r: Option<usize>)
        ensures
            r == (if channel < self.channels { Some(self.frames as usize) } else { None::<usize> }),
    {
        if channel >= self.channels {
            return None;
        }
        Some(self.frames as usize)
    }
}

} // verus!
