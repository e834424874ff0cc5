//! Hands-free calls.
//!
//! Call audio comes as 16-bit mono and is doubled for the stereo DAC; the
//! outgoing side is drawn from the microphone ring. Each chunk that goes to
//! the DAC carries the call's format, so that nothing has to be restored when
//! the call ends.

use vstd::prelude::*;

use crate::audio::i2s_input::Mic;
use crate::audio::i2s_output::I2SAudioOutput;
use crate::audio::{AudioOutputFormat, PcmFrame};
use crate::channel::TrySendError;

verus! {

use crate::audio::i2s_input::ring_read;
use crate::channel::Answer;

/// Rate of the call audio.
pub const SCO_SAMPLE_RATE: u32 = 16_000;

/// The format that call audio is played at: stereo, since the DAC is wired so.
pub open spec fn sco_format() -> AudioOutputFormat {
    AudioOutputFormat { sample_rate: SCO_SAMPLE_RATE, channels: 2, bits: 16 }
}

/// Each whole 16-bit sample of `mono`, twice in a row.
pub open spec fn doubled(mono: Seq<u8>) -> Seq<u8> {
    Seq::new(mono.len() / 2 * 4, |i: int| mono[i / 4 * 2 + i % 2])
}

/// State of the call audio link.
#[derive(Debug, Clone, Copy, PartialEq, Eq, Structural)]
pub enum AudioStatus {
    Disconnected,
    Connecting,
    Connected,
    ConnectedMsbc,
}

/// What the hands-free client reports.
pub enum HfpcEvent<'a> {
    ConnectionState,
    AudioState(AudioStatus),
    VoiceRecognitionEnabled,
    VoiceRecognitionDisabled,
    /// Call audio, 16-bit mono.
    RecvData(&'a [u8]),
    /// The link asks for outgoing audio, 16-bit mono.
    SendData,
    Other,
}

/// What came of an event.
pub struct HfpOutcome {
    /// Bytes of outgoing audio that were filled in.
    pub filled: usize,
    /// The link is to be told that outgoing audio can be fetched: it never
    /// fetches on its own.
    pub request_outgoing: bool,
    /// PCM that the DAC did not take.
    pub refused: Option<TrySendError<PcmFrame>>,
}

impl HfpOutcome {
    /// The DAC writer's answer to received call audio.
    pub open spec fn answer(self) -> Answer {
        match self.refused {
            Some(e) => e.answer(),
            None => Answer::Taken,
        }
    }
}

/// The hands-free session.
pub struct HfpSession {}

impl HfpSession {
    /// The chunk of PCM that received call audio becomes.
    pub fn sco_frame(mono: &[u8]) -> (r: PcmFrame)
        ensures
            r@ == (sco_format(), doubled(mono@)),
    {
        let len: usize = mono.len();
        let n: usize = len / 2;
        let mut samples: Vec<u8> = Vec::new();
        let mut k: usize = 0;
        while k < n
            invariant
                k <= n,
                n == len / 2,
                len == mono@.len(),
                samples@.len() == 4 * k,
                forall|i: int| 0 <= i < 4 * k ==> #[trigger] samples@[i] == doubled(mono@)[i],
            decreases n - k,
        {
            let lo: u8 = mono[2 * k];
            let hi: u8 = mono[2 * k + 1];
            samples.push(lo);
            samples.push(hi);
            samples.push(lo);
            samples.push(hi);
            k = k + 1;
        }
        assert(samples@ == doubled(mono@));
        PcmFrame {
            format: AudioOutputFormat { sample_rate: SCO_SAMPLE_RATE, channels: 2, bits: 16 },
            samples,
        }
    }

    /// Takes an event. Received call audio goes to the DAC, as one frame; no
    /// other event sends anything there. `outgoing` is the buffer that a request for outgoing
    /// audio comes with; other events leave it alone.
    pub fn handle_event(
        audio_out: &mut I2SAudioOutput,
        mic: &mut Mic,
        event: HfpcEvent<'_>,
        outgoing: &mut [u8],
    ) -> (r: HfpOutcome)
        requires
            old(mic).wf(),
        ensures
            final(mic).wf(),
            final(mic).gain() == old(mic).gain(),
            final(outgoing)@.len() == old(outgoing)@.len(),
            r.request_outgoing == (event is RecvData),
            match event {
                HfpcEvent::RecvData(mono) => {
                    let frame = (sco_format(), doubled(mono@));
                    &&& old(audio_out)@.offered(frame, r.answer(), final(audio_out)@)
                    &&& final(audio_out).sent() == (if r.refused is None {
                        old(audio_out).sent().push(frame)
                    } else {
                        old(audio_out).sent()
                    })
                },
                _ => *final(audio_out) == *old(audio_out),
            },
            old(audio_out)@.wf() ==> final(audio_out)@.wf(),
            match event {
                HfpcEvent::AudioState(status) => {
                    &&& final(mic)@ == (if status is Connecting {
                        old(mic)@
                    } else {
                        Seq::empty()
                    })
                    &&& final(outgoing)@ == old(outgoing)@
                    &&& r.filled == 0
                    &&& r.refused is None
                },
                HfpcEvent::RecvData(mono) => {
                    &&& final(mic)@ == old(mic)@
                    &&& final(outgoing)@ == old(outgoing)@
                    &&& r.filled == 0
                    &&& r.refused matches Some(e) ==> e.message()@ == (
                        sco_format(),
                        doubled(mono@),
                    )
                },
                HfpcEvent::SendData => {
                    let read = ring_read(old(mic)@, old(outgoing)@.len() as int);
                    &&& final(mic)@ == read.1
                    &&& match read.0 {
                        Some(bytes) => r.filled == old(outgoing)@.len() && final(outgoing)@ == bytes,
                        None => r.filled == 0 && final(outgoing)@ == old(outgoing)@,
                    }
                    &&& r.refused is None
                },
                _ => {
                    &&& final(mic)@ == old(mic)@
                    &&& final(outgoing)@ == old(outgoing)@
                    &&& r.filled == 0
                    &&& r.refused is None
                },
            },
    {
        match event {
            HfpcEvent::AudioState(status) => {
                match status {
                    AudioStatus::Connected | AudioStatus::ConnectedMsbc
                    | AudioStatus::Disconnected => {
                        mic.drain();
                    },
                    AudioStatus::Connecting => {},
                }
                HfpOutcome { filled: 0, request_outgoing: false, refused: None }
            },
            HfpcEvent::RecvData(mono) => {
                let frame = HfpSession::sco_frame(mono);
                let refused = match audio_out.send_pcm(frame.format, frame.samples) {
                    Ok(()) => None,
                    Err(e) => Some(e),
                };
                HfpOutcome { filled: 0, request_outgoing: true, refused }
            },
            HfpcEvent::SendData => {
                let filled = mic.read(outgoing);
                HfpOutcome { filled, request_outgoing: false, refused: None }
            },
            _ => HfpOutcome { filled: 0, request_outgoing: false, refused: None },
        }
    }
}

/// Doubling puts each mono sample in both slots of a stereo pair, in order.
/// Only a trailing half sample is left out.
pub proof fn law_both_channels_carry_the_mono_sample(mono: Seq<u8>, k: int)
    requires
        0 <= k < mono.len() / 2,
    ensures
        doubled(mono).len() == 4 * (mono.len() / 2),
        doubled(mono).subrange(4 * k, 4 * k + 2) == mono.subrange(2 * k, 2 * k + 2),
        doubled(mono).subrange(4 * k + 2, 4 * k + 4) == mono.subrange(2 * k, 2 * k + 2),
{
}

/// Call audio is 16-bit stereo at 16 kHz, and each of its bytes is the byte of
/// the mono sample that its pair stands for.
pub proof fn law_call_audio_is_stereo_at_16_khz(mono: Seq<u8>, i: int)
    requires
        0 <= i < 4 * (mono.len() / 2),
    ensures
        sco_format().sample_rate == 16_000,
        sco_format().channels == 2,
        sco_format().bits == 16,
        doubled(mono)[i] == mono[2 * (i / 4) + i % 2],
{
}

/// An outcome tells the DAC's answer: refused for its reason, or taken.
pub proof fn law_refusals_tell_the_answer(r: HfpOutcome)
    ensures
        r.refused is None ==> r.answer() is Taken,
        r.refused matches Some(TrySendError::Full(_)) ==> r.answer() is Full,
        r.refused matches Some(TrySendError::Disconnected(_)) ==> r.answer() is Gone,
{
}

} // verus!
