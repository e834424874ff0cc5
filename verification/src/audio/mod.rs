//! The audio pipeline and the types that its parts share.
//!
//! - [`decoder`]: encoded A2DP packets to PCM
//! - [`i2s_output`]: PCM to the DAC
//! - [`i2s_input`]: microphone to call audio
//! - [`sample`]: 16-bit little-endian samples

pub mod decoder;
pub mod i2s_input;
pub mod i2s_output;
pub mod sample;

use vstd::prelude::*;

verus! {

/// Codec and parameters that came out of the AVDTP negotiation. A2DP delivers
/// raw codec frames, so the decoder needs both up front.
#[derive(Debug, Copy, Clone, PartialEq, Eq, Structural)]
pub enum CodecChoice {
    Aac { sample_rate: u32, channels: u8 },
    Sbc { sample_rate: u32, channels: u8 },
}

impl CodecChoice {
    pub open spec fn rate(self) -> u32 {
        match self {
            CodecChoice::Aac { sample_rate, .. } => sample_rate,
            CodecChoice::Sbc { sample_rate, .. } => sample_rate,
        }
    }

    pub open spec fn channel_count(self) -> u8 {
        match self {
            CodecChoice::Aac { channels, .. } => channels,
            CodecChoice::Sbc { channels, .. } => channels,
        }
    }

    pub fn sample_rate(&self) -> (r: u32)
        ensures
            r == self.rate(),
    {
        match self {
            CodecChoice::Aac { sample_rate, .. } => *sample_rate,
            CodecChoice::Sbc { sample_rate, .. } => *sample_rate,
        }
    }

    pub fn channels(&self) -> (r: u8)
        ensures
            r == self.channel_count(),
    {
        match self {
            CodecChoice::Aac { channels, .. } => *channels,
            CodecChoice::Sbc { channels, .. } => *channels,
        }
    }
}

/// Format of a chunk of PCM. It travels with every [`PcmFrame`]: whoever
/// pushes samples declares their format, and the DAC follows.
#[derive(Debug, Copy, Clone, Eq, PartialEq, Structural)]
pub struct AudioOutputFormat {
    pub sample_rate: u32,
    pub channels: u8,
    pub bits: u8,
}

/// A chunk of PCM bytes with the format that it was rendered at.
#[derive(Debug)]
pub struct PcmFrame {
    pub format: AudioOutputFormat,
    pub samples: Vec<u8>,
}

impl View for PcmFrame {
    type V = (AudioOutputFormat, Seq<u8>);

    open spec fn view(&self) -> (AudioOutputFormat, Seq<u8>) {
        (self.format, self.samples@)
    }
}

/// A codec choice gives its own rate and channel count.
pub proof fn law_choice_keeps_its_parameters(sample_rate: u32, channels: u8)
    ensures
        (CodecChoice::Aac { sample_rate, channels }).rate() == sample_rate,
        (CodecChoice::Aac { sample_rate, channels }).channel_count() == channels,
        (CodecChoice::Sbc { sample_rate, channels }).rate() == sample_rate,
        (CodecChoice::Sbc { sample_rate, channels }).channel_count() == channels,
{
}

/// A frame is its format and its samples, and nothing else.
pub proof fn law_frame_is_format_and_samples(frame: PcmFrame)
    ensures
        frame@.0 == frame.format,
        frame@.1 == frame.samples@,
{
}

} // verus!
