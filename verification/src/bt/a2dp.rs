//! Music over A2DP.
//!
//! The sink delivers encoded packets. The codec that was negotiated, the
//! packets and the end of a connection are passed on to the decoder.

use vstd::prelude::*;

use crate::audio::decoder::{DecoderMsg, DecoderTask};
use crate::audio::CodecChoice;
use crate::channel::TrySendError;
use crate::stats::Counters;

verus! {

use crate::audio::decoder::offer_counted;
use crate::channel::Answer;

/// A codec's capability bytes, by kind.
#[derive(Debug, Clone, Copy)]
pub enum CodecKind {
    /// AAC.
    Mpeg2_4([u8; 6]),
    Sbc,
    Other,
}

/// A negotiated codec, with what its capability bytes say.
#[derive(Debug, Clone, Copy)]
pub struct Codec {
    pub kind: CodecKind,
    pub sample_rate: Option<u32>,
    pub stereo: Option<bool>,
}

#[derive(Debug, Clone, Copy, PartialEq, Eq, Structural)]
pub enum ConnectionStatus {
    Disconnected,
    Connecting,
    Connected,
    Disconnecting,
}

/// What the sink reports.
pub enum A2dpEvent {
    AudioCodecConfigured(Codec),
    /// A packet of encoded bytes.
    SinkAudioData(Vec<u8>),
    ConnectionState(ConnectionStatus),
    Other,
}

/// A codec that a sink endpoint offers.
#[derive(Debug, Clone, Copy, PartialEq, Eq, Structural)]
pub enum EndpointCodec {
    Aac,
    Sbc,
}

/// What came of an event.
pub enum A2dpOutcome {
    /// Nothing was due, or the decoder took the message.
    Done,
    /// The codec is none that the decoder knows.
    UnsupportedCodec,
    /// The decoder had no room for the frame.
    FrameDropped(TrySendError<DecoderMsg>),
    /// The decoder is gone.
    DecoderGone(DecoderMsg),
}

impl A2dpOutcome {
    /// The decoder's answer to the message of the event, where it called for
    /// one.
    pub open spec fn answer(self) -> Answer {
        match self {
            A2dpOutcome::FrameDropped(e) => e.answer(),
            A2dpOutcome::DecoderGone(_) => Answer::Gone,
            _ => Answer::Taken,
        }
    }
}

/// The decoder's view of a negotiated codec. Stereo is taken for granted where
/// the codec does not say.
pub open spec fn choice_of(codec: Codec) -> Option<CodecChoice> {
    let channels: u8 = if codec.stereo == Some(false) {
        1
    } else {
        2
    };
    match (codec.kind, codec.sample_rate) {
        (CodecKind::Mpeg2_4(_), Some(sample_rate)) => Some(
            CodecChoice::Aac { sample_rate, channels },
        ),
        (CodecKind::Sbc, Some(sample_rate)) => Some(CodecChoice::Sbc { sample_rate, channels }),
        _ => None,
    }
}

/// What the decoder is told of an event.
pub open spec fn message_for(event: A2dpEvent) -> Option<DecoderMsg> {
    match event {
        A2dpEvent::AudioCodecConfigured(codec) => match choice_of(codec) {
            Some(choice) => Some(DecoderMsg::SwitchCodec(choice)),
            None => None,
        },
        A2dpEvent::SinkAudioData(packet) => Some(DecoderMsg::Frame(packet)),
        A2dpEvent::ConnectionState(ConnectionStatus::Disconnected) => Some(DecoderMsg::Reset),
        _ => None,
    }
}

/// The A2DP sink session.
pub struct A2dpSession {}

impl A2dpSession {
    /// The endpoints to register, each with its identifier: AAC first, which
    /// phones prefer when both are offered; SBC as the fallback.
    pub fn sink_endpoints() -> (r: Vec<(u8, EndpointCodec)>)
        ensures
            r@ == seq![
                (0u8, EndpointCodec::Aac),
                (1u8, EndpointCodec::Sbc),
            ],
    {
        let r = vec![(0u8, EndpointCodec::Aac), (1u8, EndpointCodec::Sbc)];
        assert(r@ == seq![(0u8, EndpointCodec::Aac), (1u8, EndpointCodec::Sbc)]);
        r
    }

    /// The decoder's view of a negotiated codec.
    pub fn codec_choice(codec: &Codec) -> (r: Option<CodecChoice>)
        ensures
            r == choice_of(*codec),
    {
        let stereo = match codec.stereo {
            Some(stereo) => stereo,
            None => true,
        };
        let channels: u8 = if stereo {
            2
        } else {
            1
        };
        match (codec.kind, codec.sample_rate) {
            (CodecKind::Mpeg2_4(_), Some(sample_rate)) => Some(
                CodecChoice::Aac { sample_rate, channels },
            ),
            (CodecKind::Sbc, Some(sample_rate)) => Some(CodecChoice::Sbc { sample_rate, channels }),
            _ => None,
        }
    }

    /// What the decoder is told of an event.
    pub fn decoder_message(event: A2dpEvent) -> (r: Option<DecoderMsg>)
        ensures
            r == message_for(event),
    {
        match event {
            A2dpEvent::AudioCodecConfigured(codec) => match A2dpSession::codec_choice(&codec) {
                Some(choice) => Some(DecoderMsg::SwitchCodec(choice)),
                None => None,
            },
            A2dpEvent::SinkAudioData(packet) => Some(DecoderMsg::Frame(packet)),
            A2dpEvent::ConnectionState(status) => {
                if status == ConnectionStatus::Disconnected {
                    Some(DecoderMsg::Reset)
                } else {
                    None
                }
            },
            A2dpEvent::Other => None,
        }
    }

    /// Passes an event on to the decoder: the one message that it calls for, or
    /// none. Frames never wait; a frame that is not taken is counted.
    pub fn handle_event(
        event: A2dpEvent,
        decoder: &mut DecoderTask,
        counters: &mut Counters,
    ) -> (r: A2dpOutcome)
        ensures
            r is UnsupportedCodec <==> event is AudioCodecConfigured && message_for(event) is None,
            match message_for(event) {
                Some(m) => {
                    &&& old(decoder)@.offered(m@, r.answer(), final(decoder)@)
                    &&& final(decoder).sent() == (if r is Done {
                        old(decoder).sent().push(m@)
                    } else {
                        old(decoder).sent()
                    })
                },
                None => *final(decoder) == *old(decoder) && (r is Done || r is UnsupportedCodec),
            },
            old(decoder)@.wf() ==> final(decoder)@.wf(),
            r matches A2dpOutcome::FrameDropped(e) ==> {
                &&& event is SinkAudioData
                &&& message_for(event) == Some(e.message())
            },
            r matches A2dpOutcome::DecoderGone(m) ==> {
                &&& !(event is SinkAudioData)
                &&& message_for(event) == Some(m)
            },
            *final(counters) == (if event is SinkAudioData {
                offer_counted(r.answer(), *old(counters))
            } else {
                *old(counters)
            }),
    {
        let configured = match &event {
            A2dpEvent::AudioCodecConfigured(_) => true,
            _ => false,
        };
        match A2dpSession::decoder_message(event) {
            Some(DecoderMsg::SwitchCodec(choice)) => match decoder.switch_codec(choice) {
                Ok(()) => A2dpOutcome::Done,
                Err(m) => A2dpOutcome::DecoderGone(m),
            },
            Some(DecoderMsg::Frame(packet)) => match decoder.send_frame(packet, counters) {
                Ok(()) => A2dpOutcome::Done,
                Err(e) => A2dpOutcome::FrameDropped(e),
            },
            Some(DecoderMsg::Reset) => match decoder.reset() {
                Ok(()) => A2dpOutcome::Done,
                Err(m) => A2dpOutcome::DecoderGone(m),
            },
            None => {
                if configured {
                    A2dpOutcome::UnsupportedCodec
                } else {
                    A2dpOutcome::Done
                }
            },
        }
    }

    /// The variable-rate flag and the largest bit rate, from the capability
    /// bytes of AAC: one bit and 23 bits, from the top of byte 3 on.
    pub fn parse_aac_bitrate(data: &[u8; 6]) -> (r: (bool, u32))
        ensures
            r.0 == (data@[3] >= 128),
            r.1 == data@[3] % 128 * 65536 + data@[4] * 256 + data@[5],
            r.1 < 0x80_0000,
    {
        let vbr = data[3] >= 128;
        let bitrate = (data[3] % 128) as u32 * 65536 + data[4] as u32 * 256 + data[5] as u32;
        (vbr, bitrate)
    }
}

/// A codec is supported exactly when it is AAC or SBC with a known rate, and
/// its rate and channel count reach the decoder unchanged.
pub proof fn law_supported_codecs(codec: Codec)
    ensures
        choice_of(codec) is Some <==> !(codec.kind is Other) && codec.sample_rate is Some,
        choice_of(codec) matches Some(choice) ==> {
            &&& Some(choice.rate()) == codec.sample_rate
            &&& choice.channel_count() == (if codec.stereo == Some(false) {
                1u8
            } else {
                2u8
            })
            &&& (choice is Aac <==> codec.kind is Mpeg2_4)
        },
{
}

/// The decoder is told of every AAC or SBC codec with a known rate, by exactly
/// the change to that codec, rate and channel count. It is told nothing of a
/// codec that is neither, or has no known rate.
pub proof fn law_decoder_hears_of_supported_codecs(codec: Codec)
    ensures
        ({
            let channels: u8 = if codec.stereo == Some(false) {
                1
            } else {
                2
            };
            let message = message_for(A2dpEvent::AudioCodecConfigured(codec));
            match (codec.kind, codec.sample_rate) {
                (CodecKind::Mpeg2_4(_), Some(sample_rate)) => message == Some(
                    DecoderMsg::SwitchCodec(CodecChoice::Aac { sample_rate, channels }),
                ),
                (CodecKind::Sbc, Some(sample_rate)) => message == Some(
                    DecoderMsg::SwitchCodec(CodecChoice::Sbc { sample_rate, channels }),
                ),
                _ => message is None,
            }
        }),
{
}

/// Every packet reaches the decoder as it came. A disconnect resets the decoder;
/// no other change of the connection, and no other event, reaches it.
pub proof fn law_packets_and_disconnects_are_passed_on(packet: Vec<u8>, status: ConnectionStatus)
    ensures
        message_for(A2dpEvent::SinkAudioData(packet)) == Some(DecoderMsg::Frame(packet)),
        message_for(A2dpEvent::ConnectionState(ConnectionStatus::Disconnected)) == Some(
            DecoderMsg::Reset,
        ),
        status != ConnectionStatus::Disconnected ==> message_for(
            A2dpEvent::ConnectionState(status),
        ) is None,
        message_for(A2dpEvent::Other) is None,
{
}

/// An outcome tells the decoder's answer: a dropped frame was refused for its
/// reason, a decoder that is gone is gone, and anything else was taken.
pub proof fn law_outcomes_tell_the_answer(m: DecoderMsg)
    ensures
        A2dpOutcome::Done.answer() is Taken,
        A2dpOutcome::FrameDropped(TrySendError::Full(m)).answer() is Full,
        A2dpOutcome::FrameDropped(TrySendError::Disconnected(m)).answer() is Gone,
        A2dpOutcome::DecoderGone(m).answer() is Gone,
{
}

} // verus!
