//! Decoding of A2DP packets.
//!
//! Packets and codec changes reach the decoder through one channel, so that it
//! sees them in order. A packet's bytes join those that earlier packets left
//! over, and the codec is run until it asks for more. Each chunk of PCM that
//! comes out carries the format of the negotiated codec.
//!
//! The codec itself is run by the caller: it is told what to open, and hands
//! back what each run came to.

use std::sync::mpsc::{Receiver, SyncSender};
use vstd::arithmetic::power2::is_pow2;
use vstd::prelude::*;

use crate::audio::sample::measure_peak;
use crate::audio::{AudioOutputFormat, CodecChoice, PcmFrame};
use crate::channel::{
    clone_message_sender, new_message_channel, recv_message, send_message, try_recv_message,
    try_send_message, TryRecvError, TrySendError,
};
use crate::stats::Counters;

verus! {

use crate::audio::sample::{law_pcm_peak_bounds_every_sample, pcm_peak, sample_value};
use crate::channel::{
    answer_of,
    law_channel_holds_its_depth,
    law_offer_adds_one_message_or_none,
    message_output_accepted,
    message_output_count,
    message_receiver,
    message_sender,
    undisturbed,
    Answer,
    Offer,
    ReceiverView,
    SenderView,
};
use crate::stats::{count_up, law_count_up_adds, max_peak};

/// First size of the buffer that the codec writes to: the working set of the
/// codecs in use. It grows when a codec asks for more.
pub const PCM_OUT_BUF: usize = 4096;

/// Messages that can wait for the decoder. A waiting frame holds its packet in
/// memory, so this absorbs bursts and no more.
pub const FRAME_CHANNEL_DEPTH: usize = 32;

/// First capacity of the buffer of encoded bytes: room for one media packet.
pub const DECODE_BUFFER_INIT_CAP: usize = 4096;

/// Width of a decoded sample.
pub const DECODED_BITS: u8 = 16;

/// Decoder failures are logged in detail until this many frames came out.
pub const DETAILED_ERROR_FRAMES: u64 = 16;

/// Messages to the decoder.
#[derive(Debug)]
pub enum DecoderMsg {
    SwitchCodec(CodecChoice),
    /// A packet of encoded bytes.
    Frame(Vec<u8>),
    /// The A2DP session has ended: forget it, and drop the frames that still
    /// wait.
    Reset,
}

/// A message as a value.
pub enum DecoderMsgView {
    SwitchCodec(CodecChoice),
    Frame(Seq<u8>),
    Reset,
}

impl View for DecoderMsg {
    type V = DecoderMsgView;

    open spec fn view(&self) -> DecoderMsgView {
        match *self {
            DecoderMsg::SwitchCodec(choice) => DecoderMsgView::SwitchCodec(choice),
            DecoderMsg::Frame(packet) => DecoderMsgView::Frame(packet@),
            DecoderMsg::Reset => DecoderMsgView::Reset,
        }
    }
}

/// Sending handle on the decoder. All clones feed the same decoder.
pub struct DecoderTask {
    tx: SyncSender<DecoderMsg>,
}

impl View for DecoderTask {
    type V = SenderView<DecoderMsgView>;

    closed spec fn view(&self) -> SenderView<DecoderMsgView> {
        message_sender(self.tx)
    }
}

impl Clone for DecoderTask {
    fn clone(&self) -> (r: Self)
        ensures
            r@ == (SenderView { positions: Seq::empty(), ..self@ }),
    {
        DecoderTask { tx: clone_message_sender(&self.tx) }
    }
}

/// The counters after a packet was offered.
pub open spec fn offer_counted(answer: Answer, c: Counters) -> Counters {
    if answer is Taken {
        c
    } else {
        Counters { dropped_sends: count_up(c.dropped_sends, 1), ..c }
    }
}

impl DecoderTask {
    /// The messages sent through this handle, in order.
    pub open spec fn sent(self) -> Seq<DecoderMsgView> {
        self@.log()
    }

    /// A handle on a decoder, and the decoder's end of its channel, in which
    /// [`FRAME_CHANNEL_DEPTH`] messages can wait.
    pub fn channel() -> (ends: (DecoderTask, DecoderQueue))
        ensures
            ends.0@ == (SenderView {
                stream: ends.1@.stream,
                depth: FRAME_CHANNEL_DEPTH as nat,
                positions: Seq::empty(),
                accepted: 0,
                taken: 0,
                gone: false,
            }),
            ends.0@.wf(),
            ends.1@.count == 0,
            ends.1.wf(),
    {
        let (tx, rx) = new_message_channel(FRAME_CHANNEL_DEPTH);
        (DecoderTask { tx }, DecoderQueue { rx, held: None })
    }

    /// Offers an encoded packet without waiting. A packet that is not taken is
    /// counted and comes back.
    pub fn send_frame(&mut self, packet: Vec<u8>, counters: &mut Counters) -> (r: Result<
        (),
        TrySendError<DecoderMsg>,
    >)
        ensures
            old(self)@.offered(DecoderMsgView::Frame(packet@), answer_of(r), final(self)@),
            final(self).sent() == (if r is Ok {
                old(self).sent().push(DecoderMsgView::Frame(packet@))
            } else {
                old(self).sent()
            }),
            old(self)@.wf() ==> final(self)@.wf(),
            r matches Err(e) ==> e.message() == DecoderMsg::Frame(packet),
            *final(counters) == offer_counted(answer_of(r), *old(counters)),
    {
        let r = try_send_message(&mut self.tx, DecoderMsg::Frame(packet));
        proof {
            law_offer_adds_one_message_or_none(
                old(self)@,
                DecoderMsgView::Frame(packet@),
                answer_of(r),
                self@,
            );
        }
        DecoderTask::frame_offered(r, counters)
    }

    /// Takes the channel's answer to an offered packet: a packet that was not
    /// taken is counted. The answer is handed on.
    pub fn frame_offered(
        offered: Result<(), TrySendError<DecoderMsg>>,
        counters: &mut Counters,
    ) -> (r: Result<(), TrySendError<DecoderMsg>>)
        ensures
            r == offered,
            *final(counters) == offer_counted(answer_of(offered), *old(counters)),
    {
        if offered.is_err() {
            counters.record_dropped_send();
        }
        offered
    }

    /// Announces a new codec, waiting for a slot. The message comes back when
    /// the decoder is gone.
    pub fn switch_codec(&mut self, choice: CodecChoice) -> (r: Result<(), DecoderMsg>)
        ensures
            old(self)@.offered(
                DecoderMsgView::SwitchCodec(choice),
                if r is Ok {
                    Answer::Taken
                } else {
                    Answer::Gone
                },
                final(self)@,
            ),
            final(self).sent() == (if r is Ok {
                old(self).sent().push(DecoderMsgView::SwitchCodec(choice))
            } else {
                old(self).sent()
            }),
            old(self)@.wf() ==> final(self)@.wf(),
            r matches Err(m) ==> m == DecoderMsg::SwitchCodec(choice),
    {
        self.send(DecoderMsg::SwitchCodec(choice))
    }

    /// Ends the session, waiting for a slot. The message comes back when the
    /// decoder is gone.
    pub fn reset(&mut self) -> (r: Result<(), DecoderMsg>)
        ensures
            old(self)@.offered(
                DecoderMsgView::Reset,
                if r is Ok {
                    Answer::Taken
                } else {
                    Answer::Gone
                },
                final(self)@,
            ),
            final(self).sent() == (if r is Ok {
                old(self).sent().push(DecoderMsgView::Reset)
            } else {
                old(self).sent()
            }),
            old(self)@.wf() ==> final(self)@.wf(),
            r matches Err(m) ==> m == DecoderMsg::Reset,
    {
        self.send(DecoderMsg::Reset)
    }

    fn send(&mut self, message: DecoderMsg) -> (r: Result<(), DecoderMsg>)
        ensures
            old(self)@.offered(
                message@,
                if r is Ok {
                    Answer::Taken
                } else {
                    Answer::Gone
                },
                final(self)@,
            ),
            final(self).sent() == (if r is Ok {
                old(self).sent().push(message@)
            } else {
                old(self).sent()
            }),
            old(self)@.wf() ==> final(self)@.wf(),
            r matches Err(m) ==> m == message,
    {
        let r = send_message(&mut self.tx, message);
        proof {
            let answer = if r is Ok {
                Answer::Taken
            } else {
                Answer::Gone
            };
            law_offer_adds_one_message_or_none(old(self)@, message@, answer, self@);
        }
        r
    }
}

/// Whether a waiting message belongs to a session that has ended. Frames do;
/// a codec change or another reset is still to be seen.
pub open spec fn stale(message: DecoderMsgView) -> bool {
    message is Frame
}

/// The messages of a stream from `start` up to `end` are stale.
pub open spec fn all_stale(stream: Map<int, DecoderMsgView>, start: int, end: int) -> bool {
    forall|i: int|
        #![trigger stream[i]]
        #![trigger stream.dom().contains(i)]
        start <= i < end ==> stream.dom().contains(i) && stale(stream[i])
}

/// What draining does about the channel's answer.
pub enum DrainStep {
    /// The message is dropped; draining goes on.
    Dropped,
    /// The message is the next to be handled; draining ends.
    Kept(DecoderMsg),
    /// Nothing waits; draining ends.
    Stopped,
}

/// The decoder's end of its channel.
pub struct DecoderQueue {
    rx: Receiver<DecoderMsg>,
    /// A message that was taken out and is still to be handled.
    held: Option<DecoderMsg>,
}

impl View for DecoderQueue {
    type V = ReceiverView<DecoderMsgView>;

    /// A held message has not been handled, so it is not counted.
    closed spec fn view(&self) -> ReceiverView<DecoderMsgView> {
        let taken_out = message_receiver(self.rx);
        if self.held is Some {
            ReceiverView { count: (taken_out.count - 1) as nat, ..taken_out }
        } else {
            taken_out
        }
    }
}

impl DecoderQueue {
    /// A held message is the last that was taken out, and is not stale.
    pub closed spec fn wf(self) -> bool {
        self.held matches Some(m) ==> {
            &&& message_receiver(self.rx).count > 0
            &&& self@.next() == Some(m@)
            &&& !stale(m@)
        }
    }

    /// When the channel was last looked at, every message that it had accepted
    /// had been taken out and handled.
    pub closed spec fn found_empty(self) -> bool {
        self.held is None && message_output_accepted(self.rx) == message_output_count(self.rx)
    }

    /// The next message, in the order of the stream. Waits for it; there is
    /// none only once the stream has ended.
    pub fn next(&mut self) -> (r: Option<DecoderMsg>)
        requires
            old(self).wf(),
        ensures
            final(self).wf(),
            match r {
                Some(m) => old(self)@.next() == Some(m@) && final(self)@ == old(self)@.advanced(1),
                None => old(self)@.next() is None && final(self)@ == old(self)@,
            },
    {
        match self.held.take() {
            Some(m) => {
                assert(self@ =~= old(self)@.advanced(1));
                Some(m)
            },
            None => recv_message(&mut self.rx),
        }
    }

    /// Whether a waiting message belongs to a session that has ended.
    pub fn is_stale(message: &DecoderMsg) -> (r: bool)
        ensures
            r == stale(message@),
    {
        match message {
            DecoderMsg::Frame(_) => true,
            _ => false,
        }
    }

    /// What draining does about the channel's answer.
    pub fn drain_step(answer: Result<DecoderMsg, TryRecvError>) -> (r: DrainStep)
        ensures
            r == (match answer {
                Ok(m) => if stale(m@) {
                    DrainStep::Dropped
                } else {
                    DrainStep::Kept(m)
                },
                Err(_) => DrainStep::Stopped,
            }),
    {
        match answer {
            Ok(m) => {
                if DecoderQueue::is_stale(&m) {
                    DrainStep::Dropped
                } else {
                    DrainStep::Kept(m)
                }
            },
            Err(_) => DrainStep::Stopped,
        }
    }

    /// Drops the frames that wait, and tells how many they were. It goes on
    /// until nothing waits or another message comes next, which stays; or until
    /// it has dropped as many as can wait at once. Nothing but frames is
    /// dropped. Whether any wait is up to the sending tasks.
    pub fn drain_frames(&mut self) -> (dropped: usize)
        requires
            old(self).wf(),
        ensures
            final(self).wf(),
            final(self)@ == old(self)@.advanced(dropped as nat),
            dropped <= FRAME_CHANNEL_DEPTH,
            all_stale(old(self)@.stream, old(self)@.count as int, final(self)@.count as int),
            dropped < FRAME_CHANNEL_DEPTH ==> final(self).found_empty() || (
            final(self)@.next() matches Some(m) && !stale(m)),
    {
        let mut dropped: usize = 0;
        while dropped < FRAME_CHANNEL_DEPTH && self.held.is_none()
            invariant
                self.wf(),
                self@ == old(self)@.advanced(dropped as nat),
                dropped <= FRAME_CHANNEL_DEPTH,
                all_stale(old(self)@.stream, old(self)@.count as int, self@.count as int),
            decreases FRAME_CHANNEL_DEPTH - dropped,
        {
            match DecoderQueue::drain_step(try_recv_message(&mut self.rx)) {
                DrainStep::Dropped => {
                    dropped = dropped + 1;
                },
                DrainStep::Kept(m) => {
                    self.held = Some(m);
                    assert(self@ =~= old(self)@.advanced(dropped as nat));
                    return dropped;
                },
                DrainStep::Stopped => {
                    return dropped;
                },
            }
        }
        dropped
    }
}

/// A packet that was offered, with the counters around it.
pub struct PacketOffer {
    pub offer: Offer<DecoderMsgView>,
    pub counted_before: Counters,
    pub counted_after: Counters,
}

/// The packets were offered one after the other, and counted so.
pub open spec fn counted_in_turn(packets: Seq<PacketOffer>) -> bool {
    &&& forall|i: int|
        0 <= i < packets.len() ==> (#[trigger] packets[i]).counted_after == offer_counted(
            packets[i].offer.answer,
            packets[i].counted_before,
        )
    &&& forall|i: int, j: int|
        0 <= i && i + 1 == j && j < packets.len() ==> (#[trigger] packets[i]).counted_after == (
        #[trigger] packets[j]).counted_before
}

/// A decoder that takes nothing has the first packets wait, as many as its
/// channel is deep, in the order in which they were offered. Each of the others
/// is dropped and counted once.
pub proof fn law_full_decoder_drops_and_counts(
    packets: Seq<PacketOffer>,
    stream: Map<int, DecoderMsgView>,
)
    requires
        packets.len() > 0,
        undisturbed(
            packets.map_values(|p: PacketOffer| p.offer),
            stream,
            FRAME_CHANNEL_DEPTH as nat,
        ),
        counted_in_turn(packets),
    ensures
        forall|i: int|
            0 <= i < packets.len() ==> (#[trigger] packets[i]).offer.answer == (if i
                < FRAME_CHANNEL_DEPTH {
                Answer::Taken
            } else {
                Answer::Full
            }),
        forall|i: int|
            0 <= i < packets.len() && i < FRAME_CHANNEL_DEPTH ==> stream[i] == (
            #[trigger] packets[i]).offer.message,
        packets.last().counted_after == (Counters {
            dropped_sends: count_up(
                packets[0].counted_before.dropped_sends,
                if packets.len() <= FRAME_CHANNEL_DEPTH {
                    0
                } else {
                    (packets.len() - FRAME_CHANNEL_DEPTH) as nat
                },
            ),
            ..packets[0].counted_before
        }),
{
    let offers = packets.map_values(|p: PacketOffer| p.offer);
    law_channel_holds_its_depth(offers, stream, FRAME_CHANNEL_DEPTH as nat);
    assert forall|i: int| 0 <= i < packets.len() implies (#[trigger] packets[i]).offer
        == offers[i] by {}
    lemma_counted_in_turn(packets, packets.len() - 1);
}

/// The counters after the packets up to the `n`-th.
proof fn lemma_counted_in_turn(packets: Seq<PacketOffer>, n: int)
    requires
        0 <= n < packets.len(),
        counted_in_turn(packets),
        forall|i: int|
            0 <= i < packets.len() ==> ((#[trigger] packets[i]).offer.answer is Taken <==> i
                < FRAME_CHANNEL_DEPTH),
    ensures
        packets[n].counted_after == (Counters {
            dropped_sends: count_up(
                packets[0].counted_before.dropped_sends,
                if n < FRAME_CHANNEL_DEPTH {
                    0
                } else {
                    (n + 1 - FRAME_CHANNEL_DEPTH) as nat
                },
            ),
            ..packets[0].counted_before
        }),
    decreases n,
{
    let start = packets[0].counted_before.dropped_sends;
    law_count_up_adds(start, 0, 0);
    if n > 0 {
        lemma_counted_in_turn(packets, n - 1);
        assert(packets[n].counted_before == packets[n - 1].counted_after);
        if n >= FRAME_CHANNEL_DEPTH {
            law_count_up_adds(start, (n - FRAME_CHANNEL_DEPTH) as nat, 1);
        }
    }
}

/// Parameters of the AAC codec.
#[derive(Debug, Clone, Copy, PartialEq, Eq, Structural)]
pub struct AacConfig {
    pub sample_rate: u32,
    pub channels: u8,
    pub bits_per_sample: u8,
    /// Frames come raw, with no ADTS header.
    pub no_adts_header: bool,
    /// HE-AAC extensions.
    pub aac_plus_enable: bool,
}

#[derive(Debug, Clone, Copy, PartialEq, Eq, Structural)]
pub enum SbcMode {
    Std,
    Msbc,
}

/// Parameters of the SBC codec.
#[derive(Debug, Clone, Copy, PartialEq, Eq, Structural)]
pub struct SbcConfig {
    pub mode: SbcMode,
    pub channels: u8,
    /// Packet loss concealment.
    pub enable_plc: bool,
}

/// A codec to open.
#[derive(Debug, Clone, Copy, PartialEq, Eq, Structural)]
pub enum CodecConfig {
    Aac(AacConfig),
    Sbc(SbcConfig),
}

/// What to open for a negotiated codec.
pub open spec fn config_for(choice: CodecChoice) -> CodecConfig {
    match choice {
        CodecChoice::Aac { sample_rate, channels } => CodecConfig::Aac(
            AacConfig {
                sample_rate,
                channels,
                bits_per_sample: DECODED_BITS,
                no_adts_header: true,
                aac_plus_enable: false,
            },
        ),
        CodecChoice::Sbc { channels, .. } => CodecConfig::Sbc(
            SbcConfig { mode: SbcMode::Std, channels, enable_plc: false },
        ),
    }
}

/// The format that a negotiated codec decodes to.
pub open spec fn format_for(choice: CodecChoice) -> AudioOutputFormat {
    AudioOutputFormat {
        sample_rate: choice.rate(),
        channels: choice.channel_count(),
        bits: DECODED_BITS,
    }
}

/// What one run of the codec came to.
#[derive(Debug, Clone, Copy, PartialEq, Eq, Structural)]
pub enum DecoderResult {
    /// `consumed` bytes were read and `decoded` bytes of PCM written.
    Progressed { consumed: usize, decoded: usize },
    /// More input is needed.
    DataLack,
    /// The output buffer must hold `needed` bytes.
    BuffNotEnough { consumed: usize, needed: usize },
    /// `consumed` bytes were read and nothing written yet.
    Continue { consumed: usize },
    Failed,
}

/// A line of progress, due at each power of two of frames.
#[derive(Debug, Clone, Copy, PartialEq, Eq, Structural)]
pub struct Progress {
    pub frame: u64,
    pub consumed: usize,
    pub decoded: usize,
    pub total_pcm: u64,
    pub peak: u32,
    pub buf_remain: usize,
}

/// What follows from one run of the codec.
pub struct DecodeStep {
    /// PCM for the DAC.
    pub pcm: Option<PcmFrame>,
    /// This was the session's first frame: the codec can describe itself.
    pub first_frame: bool,
    pub progress: Option<Progress>,
    /// The run failed early in the session.
    pub detailed_error: bool,
    /// Run the codec again on what is left.
    pub again: bool,
}

/// What a message asks of the caller.
pub enum DecoderAction {
    /// The session is over: drop the frames that still wait, with
    /// [`DecoderQueue::drain_frames`].
    DrainQueue,
    /// Open this codec and say how it went, with [`DecoderState::codec_opened`].
    Open(CodecChoice, CodecConfig),
    /// Append this packet, with [`DecoderState::push_packet`].
    Decode(Vec<u8>),
    /// No codec is open: the packet is dropped.
    Ignore,
}

/// The decoder between two runs of the codec, as values.
#[verifier::ext_equal]
pub struct DecoderModel {
    /// The session's format, while a codec is open.
    pub format: Option<AudioOutputFormat>,
    /// Frames decoded in the session.
    pub frames: u64,
    /// Bytes of PCM decoded in the session.
    pub bytes: u64,
    /// Encoded bytes that the codec has not read yet.
    pub pending: Seq<u8>,
    /// The buffer that the codec writes to.
    pub out: Seq<u8>,
}

pub open spec fn larger(a: nat, b: nat) -> nat {
    if a < b {
        b
    } else {
        a
    }
}

impl DecoderModel {
    /// The decoder once the session has ended.
    pub open spec fn after_reset(self) -> DecoderModel {
        DecoderModel { format: None, frames: 0, bytes: 0, pending: Seq::empty(), ..self }
    }

    /// The decoder once the codec for `choice` was opened, or could not be.
    pub open spec fn after_open(self, choice: CodecChoice, opened: bool) -> DecoderModel {
        if opened {
            DecoderModel {
                format: Some(format_for(choice)),
                frames: 0,
                bytes: 0,
                pending: Seq::empty(),
                ..self
            }
        } else {
            DecoderModel { format: None, ..self }
        }
    }

    /// Whether packets are decoded. They are dropped while no codec is open.
    pub open spec fn takes_packets(self) -> bool {
        self.format is Some
    }

    /// The decoder with a packet appended.
    pub open spec fn with_packet(self, packet: Seq<u8>) -> DecoderModel {
        DecoderModel { pending: self.pending + packet, ..self }
    }

    /// The run was one of an open codec, and read and wrote no more than there
    /// was. The counters and the buffer have room for it.
    pub open spec fn accepts(self, r: DecoderResult) -> bool {
        &&& self.takes_packets()
        &&& self.pending.len() > 0
        &&& match r {
            DecoderResult::Progressed { consumed, decoded } => {
                &&& consumed <= self.pending.len()
                &&& decoded <= self.out.len()
                &&& decoded > 0 ==> self.frames < u64::MAX
                &&& self.bytes + decoded <= u64::MAX
            },
            DecoderResult::BuffNotEnough { needed, .. } => {
                &&& needed <= isize::MAX
                &&& 2 * self.out.len() <= isize::MAX
            },
            DecoderResult::Continue { consumed } => consumed <= self.pending.len(),
            DecoderResult::DataLack => true,
            DecoderResult::Failed => true,
        }
    }

    /// The output buffer grown to hold `needed` bytes, and at least doubled.
    pub open spec fn grown(self, needed: usize) -> Seq<u8> {
        let len = larger(needed as nat, 2 * self.out.len());
        Seq::new(
            len,
            |i: int|
                if i < self.out.len() {
                    self.out[i]
                } else {
                    0u8
                },
        )
    }

    /// The decoder after a run that came to `r`.
    pub open spec fn after(self, r: DecoderResult) -> DecoderModel {
        match r {
            DecoderResult::Progressed { consumed, decoded } => DecoderModel {
                frames: if decoded > 0 {
                    (self.frames + 1) as u64
                } else {
                    self.frames
                },
                bytes: (self.bytes + decoded) as u64,
                pending: self.pending.skip(consumed as int),
                ..self
            },
            DecoderResult::DataLack => self,
            DecoderResult::BuffNotEnough { needed, .. } => DecoderModel {
                out: self.grown(needed),
                ..self
            },
            DecoderResult::Continue { consumed } => DecoderModel {
                pending: self.pending.skip(consumed as int),
                ..self
            },
            DecoderResult::Failed => DecoderModel { pending: Seq::empty(), ..self },
        }
    }

    /// The PCM that the run gave.
    pub open spec fn pcm(self, r: DecoderResult) -> Option<(AudioOutputFormat, Seq<u8>)> {
        match r {
            DecoderResult::Progressed { decoded, .. } if decoded > 0 => Some(
                (self.format->0, self.out.take(decoded as int)),
            ),
            _ => None,
        }
    }

    /// The recorded peak once the run's PCM is taken into account.
    pub open spec fn peak(self, r: DecoderResult, recorded: u32) -> u32 {
        match r {
            DecoderResult::Progressed { decoded, .. } if decoded > 0 => max_peak(
                recorded,
                pcm_peak(self.out.take(decoded as int)) as u16,
            ),
            _ => recorded,
        }
    }

    /// The line of progress that the run calls for.
    pub open spec fn progress(self, r: DecoderResult, recorded: u32) -> Option<Progress> {
        match r {
            DecoderResult::Progressed { consumed, decoded } if decoded > 0 && is_pow2(
                self.frames + 1,
            ) => Some(
                Progress {
                    frame: (self.frames + 1) as u64,
                    consumed,
                    decoded,
                    total_pcm: (self.bytes + decoded) as u64,
                    peak: self.peak(r, recorded),
                    buf_remain: (self.pending.len() - consumed) as usize,
                },
            ),
            _ => None,
        }
    }

    /// The counters after a run.
    pub open spec fn counted(self, r: DecoderResult, c: Counters) -> Counters {
        match r {
            DecoderResult::Progressed { decoded, .. } if decoded > 0 => Counters {
                frames_decoded_delta: count_up(c.frames_decoded_delta, 1),
                pcm_peak_abs: self.peak(r, c.pcm_peak_abs),
                ..c
            },
            DecoderResult::Failed => Counters { decode_errs: count_up(c.decode_errs, 1), ..c },
            _ => c,
        }
    }

    /// Whether the codec runs again: only while it gets on and bytes are left.
    pub open spec fn again(self, r: DecoderResult) -> bool {
        match r {
            DecoderResult::Progressed { consumed, .. } => 0 < consumed < self.pending.len(),
            DecoderResult::Continue { consumed } => 0 < consumed < self.pending.len(),
            DecoderResult::BuffNotEnough { .. } => true,
            DecoderResult::DataLack => false,
            DecoderResult::Failed => false,
        }
    }
}

/// The decoder between two runs of the codec.
pub struct DecoderState {
    /// The session's format, while a codec is open.
    pub format: Option<AudioOutputFormat>,
    pub frames_decoded: u64,
    pub pcm_bytes: u64,
    /// Encoded bytes that the codec has not read yet.
    pub decode_buffer: Vec<u8>,
    /// The buffer that the codec writes to.
    pub out_buf: Vec<u8>,
}

impl View for DecoderState {
    type V = DecoderModel;

    open spec fn view(&self) -> DecoderModel {
        DecoderModel {
            format: self.format,
            frames: self.frames_decoded,
            bytes: self.pcm_bytes,
            pending: self.decode_buffer@,
            out: self.out_buf@,
        }
    }
}

fn is_power_of_two(n: u64) -> (r: bool)
    ensures
        r == is_pow2(n as int),
{
    let mut m: u64 = n;
    while m > 1 && m % 2 == 0
        invariant
            is_pow2(m as int) == is_pow2(n as int),
        decreases m,
    {
        proof {
            reveal(is_pow2);
            assert(is_pow2(m as int) == is_pow2(m as int / 2));
        }
        m = m / 2;
    }
    proof {
        reveal(is_pow2);
    }
    m == 1
}

/// The first `len` bytes.
fn copy_prefix(bytes: &Vec<u8>, len: usize) -> (r: Vec<u8>)
    requires
        len <= bytes@.len(),
    ensures
        r@ == bytes@.take(len as int),
{
    let mut r: Vec<u8> = Vec::new();
    let mut i: usize = 0;
    while i < len
        invariant
            i <= len <= bytes@.len(),
            r@ == bytes@.take(i as int),
        decreases len - i,
    {
        r.push(bytes[i]);
        i = i + 1;
    }
    r
}

/// What to open for a negotiated codec.
pub fn codec_config(choice: CodecChoice) -> (r: CodecConfig)
    ensures
        r == config_for(choice),
{
    match choice {
        CodecChoice::Aac { sample_rate, channels } => CodecConfig::Aac(
            AacConfig {
                sample_rate,
                channels,
                bits_per_sample: DECODED_BITS,
                no_adts_header: true,
                aac_plus_enable: false,
            },
        ),
        CodecChoice::Sbc { channels, .. } => CodecConfig::Sbc(
            SbcConfig { mode: SbcMode::Std, channels, enable_plc: false },
        ),
    }
}

impl DecoderState {
    /// A decoder with no codec open.
    pub fn new() -> (r: Self)
        ensures
            r@ == (DecoderModel {
                format: None,
                frames: 0,
                bytes: 0,
                pending: Seq::empty(),
                out: Seq::new(PCM_OUT_BUF as nat, |i: int| 0u8),
            }),
    {
        let r = DecoderState {
            format: None,
            frames_decoded: 0,
            pcm_bytes: 0,
            decode_buffer: Vec::with_capacity(DECODE_BUFFER_INIT_CAP),
            out_buf: vec![0u8; PCM_OUT_BUF],
        };
        assert(r.out_buf@ == Seq::new(PCM_OUT_BUF as nat, |i: int| 0u8));
        r
    }

    /// Takes a message and says what is to be done about it.
    pub fn on_message(&mut self, msg: DecoderMsg) -> (action: DecoderAction)
        ensures
            match msg {
                DecoderMsg::Reset => {
                    &&& action is DrainQueue
                    &&& final(self)@ == old(self)@.after_reset()
                },
                DecoderMsg::SwitchCodec(choice) => {
                    &&& action == DecoderAction::Open(choice, config_for(choice))
                    &&& final(self)@ == old(self)@
                },
                DecoderMsg::Frame(packet) => {
                    &&& action == (if old(self)@.takes_packets() {
                        DecoderAction::Decode(packet)
                    } else {
                        DecoderAction::Ignore
                    })
                    &&& final(self)@ == old(self)@
                },
            },
    {
        match msg {
            DecoderMsg::Reset => {
                self.format = None;
                self.decode_buffer = Vec::new();
                self.frames_decoded = 0;
                self.pcm_bytes = 0;
                DecoderAction::DrainQueue
            },
            DecoderMsg::SwitchCodec(choice) => DecoderAction::Open(choice, codec_config(choice)),
            DecoderMsg::Frame(packet) => {
                if self.format.is_some() {
                    DecoderAction::Decode(packet)
                } else {
                    DecoderAction::Ignore
                }
            },
        }
    }

    /// The codec for `choice` was opened, or could not be. A new codec starts
    /// a new session: bytes of the old stream would be garbage to it.
    pub fn codec_opened(&mut self, choice: CodecChoice, opened: bool)
        ensures
            final(self)@ == old(self)@.after_open(choice, opened),
    {
        if opened {
            self.format = Some(
                AudioOutputFormat {
                    sample_rate: choice.sample_rate(),
                    channels: choice.channels(),
                    bits: DECODED_BITS,
                },
            );
            self.frames_decoded = 0;
            self.pcm_bytes = 0;
            self.decode_buffer.clear();
        } else {
            self.format = None;
        }
    }

    /// Appends a packet's bytes to those that wait. Tells whether the codec
    /// has anything to run on.
    pub fn push_packet(&mut self, packet: &[u8]) -> (run: bool)
        requires
            old(self)@.takes_packets(),
        ensures
            final(self)@ == old(self)@.with_packet(packet@),
            run == (final(self)@.pending.len() > 0),
    {
        self.decode_buffer.extend_from_slice(packet);
        assert(self.decode_buffer@ == old(self).decode_buffer@ + packet@);
        self.decode_buffer.len() > 0
    }

    /// Whether a run of the codec can have come to `result`, and there is room
    /// for what follows from it.
    pub fn accepts(&self, result: DecoderResult) -> (r: bool)
        ensures
            r == self@.accepts(result),
    {
        if self.format.is_none() || self.decode_buffer.len() == 0 {
            return false;
        }
        let most: usize = isize::MAX as usize;
        match result {
            DecoderResult::Progressed { consumed, decoded } => {
                consumed <= self.decode_buffer.len() && decoded <= self.out_buf.len() && (decoded
                    == 0 || self.frames_decoded < u64::MAX) && decoded as u64 <= u64::MAX
                    - self.pcm_bytes
            },
            DecoderResult::BuffNotEnough { needed, .. } => needed <= most && self.out_buf.len()
                <= most / 2,
            DecoderResult::Continue { consumed } => consumed <= self.decode_buffer.len(),
            DecoderResult::DataLack => true,
            DecoderResult::Failed => true,
        }
    }

    /// Takes what a run of the codec on `decode_buffer` and `out_buf` came to.
    pub fn on_result(&mut self, result: DecoderResult, counters: &mut Counters) -> (step: DecodeStep)
        requires
            old(self)@.accepts(result),
        ensures
            final(self)@ == old(self)@.after(result),
            *final(counters) == old(self)@.counted(result, *old(counters)),
            match step.pcm {
                Some(frame) => old(self)@.pcm(result) == Some(frame@),
                None => old(self)@.pcm(result) is None,
            },
            step.progress == old(self)@.progress(result, old(counters).pcm_peak_abs),
            step.first_frame == (old(self)@.pcm(result) is Some && old(self)@.frames == 0),
            step.detailed_error == (result is Failed && old(self)@.frames < DETAILED_ERROR_FRAMES),
            step.again == old(self)@.again(result),
    {
        match result {
            DecoderResult::Progressed { consumed, decoded } => {
                let mut pcm: Option<PcmFrame> = None;
                let mut progress: Option<Progress> = None;
                let mut first_frame = false;
                if decoded > 0 {
                    self.frames_decoded = self.frames_decoded + 1;
                    self.pcm_bytes = self.pcm_bytes + decoded as u64;
                    first_frame = self.frames_decoded == 1;
                    let peak = measure_peak(&self.out_buf, decoded);
                    counters.record_pcm_peak(peak);
                    if let Some(format) = self.format {
                        pcm = Some(PcmFrame { format, samples: copy_prefix(&self.out_buf, decoded) });
                    }
                    counters.record_frame_decoded();
                    if is_power_of_two(self.frames_decoded) {
                        progress = Some(
                            Progress {
                                frame: self.frames_decoded,
                                consumed,
                                decoded,
                                total_pcm: self.pcm_bytes,
                                peak: counters.pcm_peak_abs,
                                buf_remain: self.decode_buffer.len() - consumed,
                            },
                        );
                    }
                }
                self.discard(consumed);
                let again = consumed > 0 && self.decode_buffer.len() > 0;
                DecodeStep { pcm, first_frame, progress, detailed_error: false, again }
            },
            DecoderResult::DataLack => DecodeStep {
                pcm: None,
                first_frame: false,
                progress: None,
                detailed_error: false,
                again: false,
            },
            DecoderResult::BuffNotEnough { needed, .. } => {
                let doubled: usize = self.out_buf.len() * 2;
                let new_len: usize = if needed < doubled {
                    doubled
                } else {
                    needed
                };
                self.out_buf.resize(new_len, 0);
                assert(self.out_buf@ == old(self)@.grown(needed)) by {
                    assert forall|i: int| 0 <= i < new_len implies self.out_buf@[i]
                        == old(self)@.grown(needed)[i] by {
                        if i < old(self).out_buf@.len() {
                            assert(self.out_buf@.subrange(0, old(self).out_buf@.len() as int)[i]
                                == self.out_buf@[i]);
                        }
                    }
                }
                DecodeStep {
                    pcm: None,
                    first_frame: false,
                    progress: None,
                    detailed_error: false,
                    again: true,
                }
            },
            DecoderResult::Continue { consumed } => {
                self.discard(consumed);
                let again = consumed > 0 && self.decode_buffer.len() > 0;
                DecodeStep {
                    pcm: None,
                    first_frame: false,
                    progress: None,
                    detailed_error: false,
                    again,
                }
            },
            DecoderResult::Failed => {
                counters.record_decode_err();
                self.decode_buffer.clear();
                DecodeStep {
                    pcm: None,
                    first_frame: false,
                    progress: None,
                    detailed_error: self.frames_decoded < DETAILED_ERROR_FRAMES,
                    again: false,
                }
            },
        }
    }

    /// Forgets the first `consumed` waiting bytes.
    fn discard(&mut self, consumed: usize)
        requires
            consumed <= old(self)@.pending.len(),
        ensures
            final(self)@ == (DecoderModel {
                pending: old(self)@.pending.skip(consumed as int),
                ..old(self)@
            }),
    {
        let rest = self.decode_buffer.split_off(consumed);
        assert(rest@ == old(self).decode_buffer@.skip(consumed as int));
        self.decode_buffer = rest;
    }
}

/// The input that a run of the codec read.
pub open spec fn bytes_read(r: DecoderResult) -> nat {
    match r {
        DecoderResult::Progressed { consumed, .. } => consumed as nat,
        DecoderResult::Continue { consumed } => consumed as nat,
        _ => 0,
    }
}

/// The input that a series of runs read.
pub open spec fn total_read(results: Seq<DecoderResult>) -> nat
    decreases results.len(),
{
    if results.len() == 0 {
        0
    } else {
        total_read(results.drop_last()) + bytes_read(results.last())
    }
}

impl DecoderModel {
    /// The decoder after a series of runs.
    pub open spec fn after_all(self, results: Seq<DecoderResult>) -> DecoderModel
        decreases results.len(),
    {
        if results.len() == 0 {
            self
        } else {
            self.after_all(results.drop_last()).after(results.last())
        }
    }

    /// Each run of the series was one that the decoder could take.
    pub open spec fn accepts_all(self, results: Seq<DecoderResult>) -> bool
        decreases results.len(),
    {
        results.len() > 0 ==> {
            &&& self.accepts_all(results.drop_last())
            &&& self.after_all(results.drop_last()).accepts(results.last())
        }
    }
}

/// Nothing of a session reaches the next. A reset, or a codec that does not
/// open, ends the decoding of packets. A codec that opens starts with no input
/// and no frames, as it would after a reset.
pub proof fn law_sessions_do_not_mix(m: DecoderModel, choice: CodecChoice)
    ensures
        !m.after_reset().takes_packets(),
        !m.after_open(choice, false).takes_packets(),
        m.after_open(choice, true).takes_packets(),
        m.after_open(choice, true).pending == Seq::<u8>::empty(),
        m.after_open(choice, true).frames == 0,
        m.after_open(choice, true) == m.after_reset().after_open(choice, true),
{
}

/// Every chunk of PCM of a session carries the format of the codec that was
/// negotiated for it, whatever came before, failures included.
pub proof fn law_pcm_carries_the_session_format(
    m: DecoderModel,
    choice: CodecChoice,
    packet: Seq<u8>,
    results: Seq<DecoderResult>,
    r: DecoderResult,
)
    requires
        m.format == Some(format_for(choice)),
    ensures
        m.with_packet(packet).format == m.format,
        m.after_all(results).format == m.format,
        m.after_all(results).pcm(r) matches Some(chunk) ==> chunk.0 == format_for(choice),
    decreases results.len(),
{
    if results.len() > 0 {
        law_pcm_carries_the_session_format(m, choice, packet, results.drop_last(), r);
    }
}

/// No byte is skipped and none is read twice: while no run fails, what waits is
/// the input without the bytes that the runs read. The format stays that of
/// the session.
pub proof fn law_input_is_read_in_order(m: DecoderModel, results: Seq<DecoderResult>)
    requires
        m.accepts_all(results),
        forall|i: int| 0 <= i < results.len() ==> !(#[trigger] results[i] is Failed),
    ensures
        total_read(results) <= m.pending.len(),
        m.after_all(results).pending == m.pending.skip(total_read(results) as int),
        m.after_all(results).format == m.format,
    decreases results.len(),
{
    if results.len() > 0 {
        let front = results.drop_last();
        assert forall|i: int| 0 <= i < front.len() implies !(#[trigger] front[i] is Failed) by {
            assert(front[i] == results[i]);
        }
        law_input_is_read_in_order(m, front);
        assert(!(results[results.len() - 1] is Failed));
    }
}

/// Packet boundaries do not matter: a packet that arrives after a run joins
/// the left-over bytes just as if it had been there before the run.
pub proof fn law_packets_join_seamlessly(m: DecoderModel, r: DecoderResult, packet: Seq<u8>)
    requires
        m.accepts(r),
        !(r is Failed),
    ensures
        m.after(r).with_packet(packet) == m.with_packet(packet).after(r),
{
    assert(m.after(r).with_packet(packet) =~= m.with_packet(packet).after(r));
}

/// Two packets in a row are one packet of both.
pub proof fn law_packets_concatenate(m: DecoderModel, first: Seq<u8>, second: Seq<u8>)
    ensures
        m.with_packet(first).with_packet(second) == m.with_packet(first + second),
{
    assert(m.with_packet(first).with_packet(second) =~= m.with_packet(first + second));
}

/// The codec does not spin: it runs again only with less input or with a
/// larger output buffer.
pub proof fn law_running_again_makes_progress(m: DecoderModel, r: DecoderResult)
    requires
        m.accepts(r),
        m.again(r),
        m.out.len() > 0,
    ensures
        m.after(r).pending.len() > 0,
        m.after(r).pending.len() < m.pending.len() || m.after(r).out.len() > m.out.len(),
{
}

/// The codec stops only when the input is used up, it read nothing, it asks for
/// more, or it failed. While it reads and input is left, it runs again; and it
/// runs again with a larger output buffer when it asks for one.
pub proof fn law_codec_runs_until_the_input_is_used_up(m: DecoderModel, r: DecoderResult)
    requires
        m.accepts(r),
    ensures
        r matches DecoderResult::Progressed { consumed, decoded } ==> (m.again(r) <==> consumed > 0
            && m.after(r).pending.len() > 0),
        r matches DecoderResult::Continue { consumed } ==> (m.again(r) <==> consumed > 0 && m.after(
            r,
        ).pending.len() > 0),
        r is BuffNotEnough ==> m.again(r),
        r is DataLack || r is Failed ==> !m.again(r),
{
}

/// A run that read `consumed` bytes leaves exactly the bytes behind them, in
/// order. A run that asks for input or room leaves them all, and one that
/// failed leaves none.
pub proof fn law_runs_leave_the_unread_bytes(m: DecoderModel, r: DecoderResult)
    requires
        m.accepts(r),
    ensures
        ({
            let left = m.after(r).pending;
            match r {
                DecoderResult::Progressed { consumed, decoded } => {
                    &&& left.len() + consumed == m.pending.len()
                    &&& forall|i: int|
                        0 <= i < left.len() ==> #[trigger] left[i] == m.pending[consumed + i]
                },
                DecoderResult::Continue { consumed } => {
                    &&& left.len() + consumed == m.pending.len()
                    &&& forall|i: int|
                        0 <= i < left.len() ==> #[trigger] left[i] == m.pending[consumed + i]
                },
                DecoderResult::Failed => left.len() == 0,
                _ => left == m.pending,
            }
        }),
{
}

/// A run leaves the session's format. It counts one frame and its bytes when it
/// decoded something, and nothing otherwise.
pub proof fn law_runs_count_frames_and_bytes(m: DecoderModel, r: DecoderResult)
    requires
        m.accepts(r),
    ensures
        m.after(r).format == m.format,
        match r {
            DecoderResult::Progressed { consumed, decoded } => {
                &&& decoded > 0 ==> m.after(r).frames == m.frames + 1
                &&& decoded == 0 ==> m.after(r).frames == m.frames
                &&& m.after(r).bytes == m.bytes + decoded
            },
            _ => m.after(r).frames == m.frames && m.after(r).bytes == m.bytes,
        },
{
}

/// The output buffer grows only when the codec asks for it: to what is needed
/// or to twice its size, whichever is more, with its bytes kept and zeros
/// behind them.
pub proof fn law_output_buffer_grows_on_demand(m: DecoderModel, r: DecoderResult)
    requires
        m.accepts(r),
    ensures
        ({
            let out = m.after(r).out;
            match r {
                DecoderResult::BuffNotEnough { consumed, needed } => {
                    &&& out.len() >= needed
                    &&& out.len() >= 2 * m.out.len()
                    &&& out.len() == needed || out.len() == 2 * m.out.len()
                    &&& forall|i: int| 0 <= i < m.out.len() ==> #[trigger] out[i] == m.out[i]
                    &&& forall|i: int| m.out.len() <= i < out.len() ==> #[trigger] out[i] == 0
                },
                _ => out == m.out,
            }
        }),
{
}

/// A run that decoded something gives exactly the decoded bytes at the start of
/// the output buffer, with the session's format. No other run gives PCM.
pub proof fn law_pcm_is_what_was_decoded(m: DecoderModel, r: DecoderResult)
    requires
        m.accepts(r),
    ensures
        m.pcm(r) is Some <==> (r matches DecoderResult::Progressed { consumed, decoded }
            && decoded > 0),
        r matches DecoderResult::Progressed { consumed, decoded } ==> (m.pcm(r) matches Some(
            chunk,
        ) ==> {
            &&& m.format == Some(chunk.0)
            &&& chunk.1.len() == decoded
            &&& forall|i: int| 0 <= i < decoded ==> #[trigger] chunk.1[i] == m.out[i]
        }),
{
}

/// The recorded peak never falls, bounds every sample of the run's PCM, and is
/// either the old peak or the magnitude of such a sample.
pub proof fn law_peak_covers_the_pcm(m: DecoderModel, r: DecoderResult, recorded: u32)
    requires
        m.accepts(r),
    ensures
        m.peak(r, recorded) >= recorded,
        match m.pcm(r) {
            Some(chunk) => {
                &&& forall|k: int|
                    0 <= k < chunk.1.len() / 2 ==> -m.peak(r, recorded) <= #[trigger] sample_value(
                        chunk.1[2 * k],
                        chunk.1[2 * k + 1],
                    ) <= m.peak(r, recorded)
                &&& m.peak(r, recorded) == recorded || exists|k: int|
                    0 <= k < chunk.1.len() / 2 && (#[trigger] sample_value(
                        chunk.1[2 * k],
                        chunk.1[2 * k + 1],
                    ) == m.peak(r, recorded) || sample_value(chunk.1[2 * k], chunk.1[2 * k + 1])
                        == -m.peak(r, recorded))
            },
            None => m.peak(r, recorded) == recorded,
        },
{
    if let Some(chunk) = m.pcm(r) {
        law_pcm_peak_bounds_every_sample(chunk.1);
    }
}

/// A line of progress comes with the frames whose number is a power of two, and
/// says what the run read, decoded and left.
pub proof fn law_progress_at_powers_of_two(m: DecoderModel, r: DecoderResult, recorded: u32)
    requires
        m.accepts(r),
        m.pending.len() <= usize::MAX,
    ensures
        m.progress(r, recorded) is Some <==> m.pcm(r) is Some && is_pow2(m.after(r).frames as int),
        m.progress(r, recorded) matches Some(p) ==> {
            &&& r == (DecoderResult::Progressed { consumed: p.consumed, decoded: p.decoded })
            &&& p.frame == m.after(r).frames
            &&& p.total_pcm == m.after(r).bytes
            &&& p.peak == m.peak(r, recorded)
            &&& p.buf_remain == m.after(r).pending.len()
        },
{
}

/// A run that gives PCM is counted as one frame and may raise the peak. A run
/// that failed is counted as one failure. Nothing else is counted.
pub proof fn law_runs_are_counted(m: DecoderModel, r: DecoderResult, c: Counters)
    requires
        m.accepts(r),
    ensures
        ({
            let after = m.counted(r, c);
            &&& after.frames_decoded_delta == (if m.pcm(r) is Some {
                count_up(c.frames_decoded_delta, 1)
            } else {
                c.frames_decoded_delta
            })
            &&& after.pcm_peak_abs == m.peak(r, c.pcm_peak_abs)
            &&& after.decode_errs == (if r is Failed {
                count_up(c.decode_errs, 1)
            } else {
                c.decode_errs
            })
            &&& after.dropped_sends == c.dropped_sends
            &&& after.i2s_write_errs == c.i2s_write_errs
            &&& after.mic_peak_abs == c.mic_peak_abs
            &&& after.mic_clip_count == c.mic_clip_count
            &&& after.mic_ring_overflows == c.mic_ring_overflows
        }),
{
}

/// Any run of an open codec on waiting input is accepted, as long as it read and
/// wrote no more than there was and the totals do not overflow.
pub proof fn law_runs_within_bounds_are_accepted(m: DecoderModel, r: DecoderResult)
    requires
        m.format is Some,
        m.pending.len() > 0,
        m.frames < u64::MAX,
    ensures
        r matches DecoderResult::Progressed { consumed, decoded } ==> (m.accepts(r) <==> consumed
            <= m.pending.len() && decoded <= m.out.len() && m.bytes + decoded <= u64::MAX),
        r matches DecoderResult::Continue { consumed } ==> (m.accepts(r) <==> consumed
            <= m.pending.len()),
        r matches DecoderResult::BuffNotEnough { consumed, needed } ==> (m.accepts(r) <==> needed
            <= isize::MAX && 2 * m.out.len() <= isize::MAX),
        r is DataLack || r is Failed ==> m.accepts(r),
{
}

/// A packet goes behind the bytes that wait, whole and in order, and changes
/// nothing else. Packets are taken exactly while a codec is open.
pub proof fn law_packets_go_behind_the_waiting_bytes(m: DecoderModel, packet: Seq<u8>)
    ensures
        m.takes_packets() <==> m.format is Some,
        m.with_packet(packet).pending.len() == m.pending.len() + packet.len(),
        forall|i: int|
            0 <= i < m.pending.len() ==> #[trigger] m.with_packet(packet).pending[i]
                == m.pending[i],
        forall|i: int|
            0 <= i < packet.len() ==> m.with_packet(packet).pending[m.pending.len() + i]
                == #[trigger] packet[i],
        m.with_packet(packet).format == m.format,
        m.with_packet(packet).frames == m.frames,
        m.with_packet(packet).bytes == m.bytes,
        m.with_packet(packet).out == m.out,
{
}

/// A reset forgets the session and keeps the output buffer. A codec that opens
/// sets the format of its own parameters, with 16-bit samples, and starts
/// afresh. One that does not open only ends the session.
pub proof fn law_sessions_start_and_end_clean(m: DecoderModel, sample_rate: u32, channels: u8)
    ensures
        m.after_reset().format is None,
        m.after_reset().frames == 0,
        m.after_reset().bytes == 0,
        m.after_reset().pending.len() == 0,
        m.after_reset().out == m.out,
        forall|choice: CodecChoice|
            choice == (CodecChoice::Aac { sample_rate, channels }) || choice == (
            CodecChoice::Sbc { sample_rate, channels }) ==> {
                let opened = #[trigger] m.after_open(choice, true);
                &&& opened.format == Some(AudioOutputFormat { sample_rate, channels, bits: 16 })
                &&& opened.frames == 0
                &&& opened.bytes == 0
                &&& opened.pending.len() == 0
                &&& opened.out == m.out
            },
        forall|choice: CodecChoice|
            ({
                let failed = #[trigger] m.after_open(choice, false);
                &&& failed.format is None
                &&& failed.frames == m.frames
                &&& failed.bytes == m.bytes
                &&& failed.pending == m.pending
                &&& failed.out == m.out
            }),
{
}

/// AAC is opened raw, at its own rate and channel count, with 16-bit samples and
/// no extensions. SBC is opened in its standard mode, at its own channel count,
/// with no concealment.
pub proof fn law_codecs_are_opened_as_negotiated(sample_rate: u32, channels: u8)
    ensures
        config_for(CodecChoice::Aac { sample_rate, channels }) matches CodecConfig::Aac(c) && {
            &&& c.sample_rate == sample_rate
            &&& c.channels == channels
            &&& c.bits_per_sample == 16
            &&& c.no_adts_header
            &&& !c.aac_plus_enable
        },
        config_for(CodecChoice::Sbc { sample_rate, channels }) matches CodecConfig::Sbc(c) && {
            &&& c.mode is Std
            &&& c.channels == channels
            &&& !c.enable_plc
        },
{
}

/// Frames are stale after a reset; a codec change and another reset are not.
pub proof fn law_only_frames_are_stale(packet: Seq<u8>, choice: CodecChoice)
    ensures
        stale(DecoderMsgView::Frame(packet)),
        !stale(DecoderMsgView::SwitchCodec(choice)),
        !stale(DecoderMsgView::Reset),
{
}

/// An offered packet counts as dropped exactly when it is not taken, and as
/// nothing else.
pub proof fn law_refused_packets_are_counted(answer: Answer, c: Counters)
    ensures
        answer is Taken ==> offer_counted(answer, c) == c,
        !(answer is Taken) ==> {
            let after = offer_counted(answer, c);
            &&& after.dropped_sends == count_up(c.dropped_sends, 1)
            &&& after == (Counters { dropped_sends: after.dropped_sends, ..c })
        },
{
}

/// A message carries its own codec choice or its own packet.
pub proof fn law_messages_carry_their_content(choice: CodecChoice, packet: Vec<u8>)
    ensures
        DecoderMsg::SwitchCodec(choice)@ == DecoderMsgView::SwitchCodec(choice),
        DecoderMsg::Frame(packet)@ == DecoderMsgView::Frame(packet@),
        DecoderMsg::Reset@ == DecoderMsgView::Reset,
{
}

/// The decoder's channel holds 32 messages, its output buffer starts at 4 KiB,
/// and failures are detailed until 16 frames came out.
pub proof fn law_decoder_sizes()
    ensures
        FRAME_CHANNEL_DEPTH == 32,
        PCM_OUT_BUF == 4096,
        DETAILED_ERROR_FRAMES == 16,
{
}

/// Once the codec stops after a run that read something and did not fail, the
/// whole input has been read.
pub proof fn law_nothing_is_left_behind(m: DecoderModel, results: Seq<DecoderResult>)
    requires
        results.len() > 0,
        m.accepts_all(results),
        forall|i: int| 0 <= i < results.len() ==> bytes_read(#[trigger] results[i]) > 0,
        !m.after_all(results.drop_last()).again(results.last()),
    ensures
        m.after_all(results).pending.len() == 0,
        total_read(results) == m.pending.len(),
{
    assert forall|i: int| 0 <= i < results.len() implies !(#[trigger] results[i] is Failed) by {
        assert(bytes_read(results[i]) > 0);
    }
    law_input_is_read_in_order(m, results);
    assert(bytes_read(results[results.len() - 1]) > 0);
    law_codec_runs_until_the_input_is_used_up(m.after_all(results.drop_last()), results.last());
}

/// What a run read is what it says that it consumed; a run that asks for input
/// or room, or failed, read nothing that counts.
pub proof fn law_bytes_read_are_those_consumed(consumed: usize, other: usize)
    ensures
        bytes_read(DecoderResult::Progressed { consumed, decoded: other }) == consumed,
        bytes_read(DecoderResult::Continue { consumed }) == consumed,
        bytes_read(DecoderResult::DataLack) == 0,
        bytes_read(DecoderResult::BuffNotEnough { consumed, needed: other }) == 0,
        bytes_read(DecoderResult::Failed) == 0,
{
}

} // verus!
