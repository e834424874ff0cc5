//! The DAC writer.
//!
//! Frames of PCM arrive with their own format. When it differs from the one
//! that the DAC runs at, the DAC is brought over first: built on the first
//! frame, reconfigured afterwards. Producers need no word with each other.

use std::sync::mpsc::{Receiver, SyncSender};
use vstd::prelude::*;

use crate::audio::{AudioOutputFormat, PcmFrame};
use crate::channel::{
    clone_frame_sender, new_frame_channel, recv_frame, try_send_frame, TrySendError,
};
use crate::stats::Counters;

verus! {

use crate::channel::{
    answer_of,
    frame_receiver,
    frame_sender,
    law_channel_holds_its_depth,
    law_offer_adds_one_message_or_none,
    undisturbed,
    Answer,
    Offer,
    ReceiverView,
    SenderView,
};
use crate::stats::count_up;

/// Frames that can wait for the DAC.
pub const CHANNEL_DEPTH: usize = 12;

/// Sending handle on the DAC writer. All clones feed the same DAC.
pub struct I2SAudioOutput {
    tx: SyncSender<PcmFrame>,
}

impl View for I2SAudioOutput {
    type V = SenderView<(AudioOutputFormat, Seq<u8>)>;

    closed spec fn view(&self) -> SenderView<(AudioOutputFormat, Seq<u8>)> {
        frame_sender(self.tx)
    }
}

impl Clone for I2SAudioOutput {
    fn clone(&self) -> (r: Self)
        ensures
            r@ == (SenderView { positions: Seq::empty(), ..self@ }),
    {
        I2SAudioOutput { tx: clone_frame_sender(&self.tx) }
    }
}

/// The DAC writer's end of its channel.
pub struct PcmQueue {
    rx: Receiver<PcmFrame>,
}

impl View for PcmQueue {
    type V = ReceiverView<(AudioOutputFormat, Seq<u8>)>;

    closed spec fn view(&self) -> ReceiverView<(AudioOutputFormat, Seq<u8>)> {
        frame_receiver(self.rx)
    }
}

impl PcmQueue {
    /// The next frame, in the order of the stream. Waits for it; there is none
    /// only once the stream has ended.
    pub fn next(&mut self) -> (r: Option<PcmFrame>)
        ensures
            match r {
                Some(frame) => {
                    &&& old(self)@.next() == Some(frame@)
                    &&& final(self)@ == old(self)@.advanced(1)
                },
                None => old(self)@.next() is None && final(self)@ == old(self)@,
            },
    {
        recv_frame(&mut self.rx)
    }
}

impl I2SAudioOutput {
    /// The frames sent through this handle, in order.
    pub open spec fn sent(self) -> Seq<(AudioOutputFormat, Seq<u8>)> {
        self@.log()
    }

    /// A handle on a DAC writer, and the writer's end of its channel, in which
    /// [`CHANNEL_DEPTH`] frames can wait.
    pub fn channel() -> (ends: (I2SAudioOutput, PcmQueue))
        ensures
            ends.0@ == (SenderView {
                stream: ends.1@.stream,
                depth: CHANNEL_DEPTH as nat,
                positions: Seq::empty(),
                accepted: 0,
                taken: 0,
                gone: false,
            }),
            ends.0@.wf(),
            ends.1@.count == 0,
    {
        let (tx, rx) = new_frame_channel(CHANNEL_DEPTH);
        (I2SAudioOutput { tx }, PcmQueue { rx })
    }

    /// Offers PCM without waiting. What is not taken comes back, whole.
    pub fn send_pcm(&mut self, format: AudioOutputFormat, samples: Vec<u8>) -> (r: Result<
        (),
        TrySendError<PcmFrame>,
    >)
        ensures
            old(self)@.offered((format, samples@), answer_of(r), final(self)@),
            final(self).sent() == (if r is Ok {
                old(self).sent().push((format, samples@))
            } else {
                old(self).sent()
            }),
            old(self)@.wf() ==> final(self)@.wf(),
            r matches Err(e) ==> e.message() == (PcmFrame { format, samples }),
    {
        let r = try_send_frame(&mut self.tx, PcmFrame { format, samples });
        proof {
            law_offer_adds_one_message_or_none(
                old(self)@,
                (format, samples@),
                answer_of(r),
                self@,
            );
        }
        r
    }

    /// The driver settings for a format.
    pub fn build_std_config(format: AudioOutputFormat) -> (r: StdConfig)
        ensures
            r == std_config(format),
    {
        let slot_mode = if format.channels >= 2 {
            SlotMode::Stereo
        } else {
            SlotMode::Mono
        };
        let bit_width = if format.bits == 24 {
            DataBitWidth::Bits24
        } else if format.bits == 32 {
            DataBitWidth::Bits32
        } else {
            DataBitWidth::Bits16
        };
        StdConfig { auto_clear: true, sample_rate: format.sample_rate, bit_width, slot_mode }
    }
}

#[derive(Debug, Clone, Copy, PartialEq, Eq, Structural)]
pub enum SlotMode {
    Mono,
    Stereo,
}

#[derive(Debug, Clone, Copy, PartialEq, Eq, Structural)]
pub enum DataBitWidth {
    Bits16,
    Bits24,
    Bits32,
}

/// Settings of the I2S driver.
#[derive(Debug, Clone, Copy, PartialEq, Eq, Structural)]
pub struct StdConfig {
    /// Play silence when the queue runs dry, not the last buffer again.
    pub auto_clear: bool,
    pub sample_rate: u32,
    pub bit_width: DataBitWidth,
    pub slot_mode: SlotMode,
}

/// The driver settings for a format. Two channels or more are stereo; a width
/// other than 24 or 32 bits is taken as 16.
pub open spec fn std_config(format: AudioOutputFormat) -> StdConfig {
    StdConfig {
        auto_clear: true,
        sample_rate: format.sample_rate,
        bit_width: if format.bits == 24 {
            DataBitWidth::Bits24
        } else if format.bits == 32 {
            DataBitWidth::Bits32
        } else {
            DataBitWidth::Bits16
        },
        slot_mode: if format.channels >= 2 {
            SlotMode::Stereo
        } else {
            SlotMode::Mono
        },
    }
}

/// Where the DAC stands.
#[derive(Debug, Clone, Copy, PartialEq, Eq, Structural)]
pub enum DacState {
    /// Pins and peripheral are at hand; no driver yet.
    Idle,
    /// The driver runs at this format.
    Running(AudioOutputFormat),
    /// Building the driver used up the peripheral and failed.
    Lost,
}

/// What to do with the DAC before a frame is written.
#[derive(Debug, Clone, Copy, PartialEq, Eq, Structural)]
pub enum DacAction {
    /// The DAC runs at the frame's format: write the samples.
    Write,
    /// Build the driver and start it.
    Build(StdConfig),
    /// Reconfigure the running driver.
    Reconfigure(StdConfig),
    /// There is no DAC: drop the frame.
    Ignore,
}

impl DacState {
    /// What a frame of `format` calls for.
    pub open spec fn action(self, format: AudioOutputFormat) -> DacAction {
        match self {
            DacState::Idle => DacAction::Build(std_config(format)),
            DacState::Running(current) => if current == format {
                DacAction::Write
            } else {
                DacAction::Reconfigure(std_config(format))
            },
            DacState::Lost => DacAction::Ignore,
        }
    }

    /// The DAC after a frame of `format`, when what it called for went well or
    /// not.
    pub open spec fn after(self, format: AudioOutputFormat, ok: bool) -> DacState {
        match self.action(format) {
            DacAction::Write => self,
            DacAction::Build(_) => if ok {
                DacState::Running(format)
            } else {
                DacState::Lost
            },
            DacAction::Reconfigure(_) => if ok {
                DacState::Running(format)
            } else {
                self
            },
            DacAction::Ignore => self,
        }
    }

    /// Whether the frame's samples are written.
    pub open spec fn writes(self, format: AudioOutputFormat, ok: bool) -> bool {
        match self.action(format) {
            DacAction::Write => true,
            DacAction::Build(_) => ok,
            DacAction::Reconfigure(_) => ok,
            DacAction::Ignore => false,
        }
    }

    /// The DAC after a series of frames, each with the outcome of what it
    /// called for.
    pub open spec fn after_all(self, frames: Seq<(AudioOutputFormat, bool)>) -> DacState
        decreases frames.len(),
    {
        if frames.len() == 0 {
            self
        } else {
            self.after_all(frames.drop_last()).after(frames.last().0, frames.last().1)
        }
    }
}

/// Holds the DAC's state between frames.
#[derive(Debug, Clone, Copy, PartialEq, Eq, Structural)]
pub struct DacWriter {
    pub state: DacState,
}

impl DacWriter {
    pub fn new() -> (r: Self)
        ensures
            r.state == DacState::Idle,
    {
        DacWriter { state: DacState::Idle }
    }

    /// What a frame of `format` calls for.
    pub fn next_action(&self, format: AudioOutputFormat) -> (r: DacAction)
        ensures
            r == self.state.action(format),
    {
        match self.state {
            DacState::Idle => DacAction::Build(I2SAudioOutput::build_std_config(format)),
            DacState::Running(current) => {
                if current == format {
                    DacAction::Write
                } else {
                    DacAction::Reconfigure(I2SAudioOutput::build_std_config(format))
                }
            },
            DacState::Lost => DacAction::Ignore,
        }
    }

    /// The action for a frame of `format` has been carried out, well or not.
    /// Tells whether the frame's samples are to be written.
    pub fn apply_format(&mut self, format: AudioOutputFormat, ok: bool) -> (write: bool)
        ensures
            final(self).state == old(self).state.after(format, ok),
            write == old(self).state.writes(format, ok),
    {
        match self.state {
            DacState::Idle => {
                self.state = if ok {
                    DacState::Running(format)
                } else {
                    DacState::Lost
                };
                ok
            },
            DacState::Running(current) => {
                if current == format {
                    true
                } else {
                    if ok {
                        self.state = DacState::Running(format);
                    }
                    ok
                }
            },
            DacState::Lost => false,
        }
    }

    /// The samples have been written, well or not.
    pub fn samples_written(&self, ok: bool, counters: &mut Counters)
        ensures
            *final(counters) == (if ok {
                *old(counters)
            } else {
                Counters {
                    i2s_write_errs: count_up(old(counters).i2s_write_errs, 1),
                    ..*old(counters)
                }
            }),
    {
        if !ok {
            counters.record_i2s_write_err();
        }
    }
}

/// Samples are only ever written to a DAC that runs at their own format.
pub proof fn law_samples_play_at_their_format(s: DacState, format: AudioOutputFormat, ok: bool)
    requires
        s.writes(format, ok),
    ensures
        s.after(format, ok) == DacState::Running(format),
        s.after(format, ok).action(format) == DacAction::Write,
{
}

/// A frame that is not written leaves a running DAC at the format it had.
pub proof fn law_dropped_frame_keeps_running_format(
    s: DacState,
    format: AudioOutputFormat,
    ok: bool,
)
    requires
        s is Running,
        !s.writes(format, ok),
    ensures
        s.after(format, ok) == s,
{
}

/// While the hardware does as asked, every frame of any mix of formats is
/// written, with no word between the producers.
pub proof fn law_working_hardware_plays_everything(
    frames: Seq<(AudioOutputFormat, bool)>,
    next: AudioOutputFormat,
)
    requires
        forall|i: int| 0 <= i < frames.len() ==> (#[trigger] frames[i]).1,
    ensures
        !(DacState::Idle.after_all(frames) is Lost),
        DacState::Idle.after_all(frames).writes(next, true),
    decreases frames.len(),
{
    if frames.len() > 0 {
        let front = frames.drop_last();
        assert forall|i: int| 0 <= i < front.len() implies (#[trigger] front[i]).1 by {
            assert(front[i] == frames[i]);
        }
        assert(frames[frames.len() - 1].1);
        law_working_hardware_plays_everything(front, frames.last().0);
    }
}

/// The peripheral is used up once: after a failed build nothing is written and
/// nothing is tried again.
pub proof fn law_lost_dac_stays_lost(frames: Seq<(AudioOutputFormat, bool)>)
    ensures
        DacState::Lost.after_all(frames) == DacState::Lost,
        forall|format: AudioOutputFormat, ok: bool| !DacState::Lost.writes(format, ok),
    decreases frames.len(),
{
    if frames.len() > 0 {
        law_lost_dac_stays_lost(frames.drop_last());
    }
}

/// A DAC writer that takes nothing has the first frames wait, as many as its
/// channel is deep, whichever handles they come through; the others are refused
/// as full. When it goes on, it receives them in the order in which they were
/// offered, each with its own format.
pub proof fn law_full_dac_refuses_and_replays(
    offers: Seq<Offer<(AudioOutputFormat, Seq<u8>)>>,
    queue: ReceiverView<(AudioOutputFormat, Seq<u8>)>,
)
    requires
        undisturbed(offers, queue.stream, CHANNEL_DEPTH as nat),
        queue.count <= offers.len(),
        queue.count <= CHANNEL_DEPTH,
    ensures
        forall|i: int|
            0 <= i < offers.len() ==> (#[trigger] offers[i]).answer == (if i < CHANNEL_DEPTH {
                Answer::Taken
            } else {
                Answer::Full
            }),
        queue.received() == offers.take(queue.count as int).map_values(
            |o: Offer<(AudioOutputFormat, Seq<u8>)>| o.message,
        ),
{
    law_channel_holds_its_depth(offers, queue.stream, CHANNEL_DEPTH as nat);
    assert(queue.received() =~= offers.take(queue.count as int).map_values(
        |o: Offer<(AudioOutputFormat, Seq<u8>)>| o.message,
    ));
}

/// The settings that a frame brings to the driver are those of its own format:
/// its rate; stereo exactly for two channels or more; its width, where the
/// driver has it, and 16 bits otherwise. They always clear automatically.
pub proof fn law_driver_gets_the_frames_format(s: DacState, format: AudioOutputFormat)
    ensures
        s is Idle <==> s.action(format) is Build,
        s.action(format) is Reconfigure <==> (s matches DacState::Running(current) && current
            != format),
        forall|config: StdConfig|
            s.action(format) == DacAction::Build(config) || s.action(format)
                == DacAction::Reconfigure(config) ==> {
                &&& #[trigger] config.sample_rate == format.sample_rate
                &&& (config.slot_mode is Stereo <==> format.channels >= 2)
                &&& (config.slot_mode is Mono <==> format.channels < 2)
                &&& (config.bit_width is Bits24 <==> format.bits == 24)
                &&& (config.bit_width is Bits32 <==> format.bits == 32)
                &&& (config.bit_width is Bits16 <==> format.bits != 24 && format.bits != 32)
                &&& config.auto_clear
            },
{
}

/// The settings of a format are its own: rate, slots, width, automatic clearing.
pub proof fn law_settings_follow_the_format(format: AudioOutputFormat)
    ensures
        std_config(format).sample_rate == format.sample_rate,
        std_config(format).slot_mode is Stereo <==> format.channels >= 2,
        format.bits == 16 ==> std_config(format).bit_width is Bits16,
        format.bits == 24 ==> std_config(format).bit_width is Bits24,
        format.bits == 32 ==> std_config(format).bit_width is Bits32,
        format.bits != 24 && format.bits != 32 ==> std_config(format).bit_width is Bits16,
        std_config(format).auto_clear,
{
}

/// A DAC that runs at a frame's format is left alone and the frame is written. A
/// driver that is built or reconfigured well runs at the frame's format and the
/// frame is written; if it is not, the frame is dropped, and a first build that
/// failed leaves no DAC.
pub proof fn law_dac_follows_each_frame(current: AudioOutputFormat, format: AudioOutputFormat)
    ensures
        DacState::Running(format).action(format) is Write,
        forall|ok: bool|
            #![trigger DacState::Running(format).writes(format, ok)]
            DacState::Running(format).writes(format, ok) && DacState::Running(format).after(
                format,
                ok,
            ) == DacState::Running(format),
        DacState::Idle.after(format, true) == DacState::Running(format),
        DacState::Idle.writes(format, true),
        DacState::Idle.after(format, false) is Lost,
        !DacState::Idle.writes(format, false),
        DacState::Lost.action(format) is Ignore,
        current != format ==> {
            &&& DacState::Running(current).after(format, true) == DacState::Running(format)
            &&& DacState::Running(current).writes(format, true)
            &&& DacState::Running(current).after(format, false) == DacState::Running(current)
            &&& !DacState::Running(current).writes(format, false)
        },
{
}

/// The DAC writer's channel holds 12 frames.
pub proof fn law_dac_queue_size()
    ensures
        CHANNEL_DEPTH == 12,
{
}

} // verus!
