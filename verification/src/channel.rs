//! Bounded channels between tasks.
//!
//! A channel is described by its stream: the messages that it accepts while it
//! exists, by position. They are taken out in that order. A sending handle is
//! described by the positions that its own messages took, and by how the
//! channel stood when the handle was last used. Other handles and the receiver
//! go on meanwhile, so that the channel may have moved on by the next use.

use std::sync::mpsc::{Receiver, SyncSender};
use vstd::prelude::*;

use crate::audio::decoder::DecoderMsg;
use crate::audio::PcmFrame;

verus! {

use crate::audio::decoder::DecoderMsgView;
use crate::audio::AudioOutputFormat;

/// `std::sync::mpsc::SyncSender`, the sending half of a bounded channel.
#[verifier::external_type_specification]
#[verifier::external_body]
#[verifier::reject_recursive_types(T)]
pub struct ExSyncSender<T>(SyncSender<T>);

/// `std::sync::mpsc::Receiver`, the receiving half of a channel.
#[verifier::external_type_specification]
#[verifier::external_body]
#[verifier::reject_recursive_types(T)]
pub struct ExReceiver<T>(Receiver<T>);

/// A sending handle as values.
#[verifier::ext_equal]
pub struct SenderView<M> {
    /// The messages that the channel accepts while it exists, by position.
    pub stream: Map<int, M>,
    /// How many messages can wait.
    pub depth: nat,
    /// The positions of the messages sent through this handle, in the order
    /// they were sent.
    pub positions: Seq<int>,
    /// How many messages the channel had accepted, from all handles, at the
    /// last use of this handle that found the receiver alive.
    pub accepted: nat,
    /// How many of them had been taken out by then.
    pub taken: nat,
    /// Whether the receiver was gone at the last use of this handle.
    pub gone: bool,
}

/// A receiving end as values.
#[verifier::ext_equal]
pub struct ReceiverView<M> {
    /// The messages that the channel accepts while it exists, by position.
    pub stream: Map<int, M>,
    /// How many have been taken out.
    pub count: nat,
}

/// What becomes of an offered message.
pub enum Answer {
    /// The channel accepts it.
    Taken,
    /// As many messages wait as can.
    Full,
    /// The receiver is gone.
    Gone,
}

impl<M> SenderView<M> {
    /// The messages sent through this handle, in order.
    pub open spec fn log(self) -> Seq<M> {
        self.positions.map_values(|p: int| self.stream[p])
    }

    /// The stream holds every message that was accepted.
    pub open spec fn keeps_accepted(self) -> bool {
        forall|i: int|
            0 <= i < self.accepted ==> #[trigger] self.stream.dom().contains(i)
    }

    /// No more messages wait than can, and the messages of this handle are
    /// among the accepted ones, in order.
    pub open spec fn wf(self) -> bool {
        &&& self.taken <= self.accepted <= self.taken + self.depth
        &&& self.keeps_accepted()
        &&& forall|i: int, j: int|
            0 <= i < j < self.positions.len() ==> self.positions[i] < self.positions[j]
        &&& forall|i: int|
            0 <= i < self.positions.len() ==> 0 <= #[trigger] self.positions[i] < self.accepted
    }

    /// `after` is the same handle at a later time.
    pub open spec fn goes_on(self, after: SenderView<M>) -> bool {
        &&& after.stream == self.stream
        &&& after.depth == self.depth
        &&& self.accepted <= after.accepted
        &&& self.taken <= after.taken
        &&& self.gone ==> after.gone
    }

    /// `m` was offered through this handle, with this answer, which left the
    /// handle as `after`. A message is accepted when the receiver lives and
    /// there is room for it, and becomes the newest of the stream. Nothing else
    /// is sent.
    pub open spec fn offered(self, m: M, answer: Answer, after: SenderView<M>) -> bool {
        &&& self.goes_on(after)
        &&& after.keeps_accepted()
        &&& answer is Gone <==> after.gone
        &&& match answer {
            Answer::Taken => {
                &&& self.accepted < after.accepted
                &&& after.taken <= after.accepted <= after.taken + after.depth
                &&& after.positions == self.positions.push(after.accepted - 1)
                &&& after.stream[after.accepted - 1] == m
            },
            Answer::Full => {
                &&& after.positions == self.positions
                &&& after.accepted == after.taken + after.depth
            },
            Answer::Gone => {
                &&& after.positions == self.positions
                &&& after.accepted == self.accepted
                &&& after.taken == self.taken
            },
        }
    }
}

impl<M> ReceiverView<M> {
    /// The messages taken out so far.
    pub open spec fn received(self) -> Seq<M> {
        Seq::new(self.count, |i: int| self.stream[i])
    }

    /// The message that comes next, unless the stream has ended.
    pub open spec fn next(self) -> Option<M> {
        if self.stream.dom().contains(self.count as int) {
            Some(self.stream[self.count as int])
        } else {
            None
        }
    }

    /// This end once `n` more messages are taken out.
    pub open spec fn advanced(self, n: nat) -> ReceiverView<M> {
        ReceiverView { count: self.count + n, ..self }
    }
}

/// The stream of the decoder's channel.
pub uninterp spec fn message_stream(tx: SyncSender<DecoderMsg>) -> Map<int, DecoderMsgView>;

/// How many messages can wait for the decoder.
pub uninterp spec fn message_depth(tx: SyncSender<DecoderMsg>) -> nat;

/// The positions of the messages sent through this handle.
pub uninterp spec fn message_positions(tx: SyncSender<DecoderMsg>) -> Seq<int>;

/// How many messages had been accepted at the last use of this handle that
/// found the decoder alive.
pub uninterp spec fn message_accepted(tx: SyncSender<DecoderMsg>) -> nat;

/// How many messages had been taken out by then.
pub uninterp spec fn message_taken(tx: SyncSender<DecoderMsg>) -> nat;

/// Whether the decoder was gone at the last use of this handle.
pub uninterp spec fn message_gone(tx: SyncSender<DecoderMsg>) -> bool;

/// The stream of the channel that this end receives from.
pub uninterp spec fn message_output(rx: Receiver<DecoderMsg>) -> Map<int, DecoderMsgView>;

/// How many messages this end has taken out.
pub uninterp spec fn message_output_count(rx: Receiver<DecoderMsg>) -> nat;

/// How many messages had been accepted when this end was last used.
pub uninterp spec fn message_output_accepted(rx: Receiver<DecoderMsg>) -> nat;

/// The stream of the DAC writer's channel.
pub uninterp spec fn frame_stream(tx: SyncSender<PcmFrame>) -> Map<
    int,
    (AudioOutputFormat, Seq<u8>),
>;

/// How many frames can wait for the DAC writer.
pub uninterp spec fn frame_depth(tx: SyncSender<PcmFrame>) -> nat;

/// The positions of the frames sent through this handle.
pub uninterp spec fn frame_positions(tx: SyncSender<PcmFrame>) -> Seq<int>;

/// How many frames had been accepted at the last use of this handle that found
/// the DAC writer alive.
pub uninterp spec fn frame_accepted(tx: SyncSender<PcmFrame>) -> nat;

/// How many frames had been taken out by then.
pub uninterp spec fn frame_taken(tx: SyncSender<PcmFrame>) -> nat;

/// Whether the DAC writer was gone at the last use of this handle.
pub uninterp spec fn frame_gone(tx: SyncSender<PcmFrame>) -> bool;

/// The stream of the channel that this end receives from.
pub uninterp spec fn frame_output(rx: Receiver<PcmFrame>) -> Map<
    int,
    (AudioOutputFormat, Seq<u8>),
>;

/// How many frames this end has taken out.
pub uninterp spec fn frame_output_count(rx: Receiver<PcmFrame>) -> nat;

/// A handle on the decoder's channel as values.
pub open spec fn message_sender(tx: SyncSender<DecoderMsg>) -> SenderView<DecoderMsgView> {
    SenderView {
        stream: message_stream(tx),
        depth: message_depth(tx),
        positions: message_positions(tx),
        accepted: message_accepted(tx),
        taken: message_taken(tx),
        gone: message_gone(tx),
    }
}

/// The decoder's end of its channel as values.
pub open spec fn message_receiver(rx: Receiver<DecoderMsg>) -> ReceiverView<DecoderMsgView> {
    ReceiverView { stream: message_output(rx), count: message_output_count(rx) }
}

/// A handle on the DAC writer's channel as values.
pub open spec fn frame_sender(tx: SyncSender<PcmFrame>) -> SenderView<
    (AudioOutputFormat, Seq<u8>),
> {
    SenderView {
        stream: frame_stream(tx),
        depth: frame_depth(tx),
        positions: frame_positions(tx),
        accepted: frame_accepted(tx),
        taken: frame_taken(tx),
        gone: frame_gone(tx),
    }
}

/// The DAC writer's end of its channel as values.
pub open spec fn frame_receiver(rx: Receiver<PcmFrame>) -> ReceiverView<
    (AudioOutputFormat, Seq<u8>),
> {
    ReceiverView { stream: frame_output(rx), count: frame_output_count(rx) }
}

/// Why a message was not taken. The message comes back in either case.
#[derive(Debug)]
pub enum TrySendError<T> {
    /// The channel holds as many messages as it can.
    Full(T),
    /// The receiver is gone.
    Disconnected(T),
}

impl<T> TrySendError<T> {
    /// The message that was not taken.
    pub open spec fn message(self) -> T {
        match self {
            TrySendError::Full(message) => message,
            TrySendError::Disconnected(message) => message,
        }
    }

    /// The answer that this stands for.
    pub open spec fn answer(self) -> Answer {
        match self {
            TrySendError::Full(_) => Answer::Full,
            TrySendError::Disconnected(_) => Answer::Gone,
        }
    }
}

/// The answer that a result of an offer stands for.
pub open spec fn answer_of<T>(r: Result<(), TrySendError<T>>) -> Answer {
    match r {
        Ok(()) => Answer::Taken,
        Err(e) => e.answer(),
    }
}

/// Why no message was taken out.
#[derive(Debug, Clone, Copy, PartialEq, Eq, Structural)]
pub enum TryRecvError {
    /// None waits.
    Empty,
    /// None waits, and none can come.
    Disconnected,
}

/// `std::sync::mpsc::sync_channel` for decoder messages: the two ends of an
/// empty channel in which `depth` messages can wait. It panics where the buffer
/// would be larger than an allocation can be.
#[verifier::external_body]
pub(crate) fn new_message_channel(depth: usize) -> (ends: (
    SyncSender<DecoderMsg>,
    Receiver<DecoderMsg>,
))
    requires
        depth <= 0x1_0000,
    ensures
        message_stream(ends.0) == message_output(ends.1),
        message_depth(ends.0) == depth,
        message_positions(ends.0) == Seq::<int>::empty(),
        message_accepted(ends.0) == 0,
        message_taken(ends.0) == 0,
        !message_gone(ends.0),
        message_output_count(ends.1) == 0,
        message_output_accepted(ends.1) == 0,
{
    std::sync::mpsc::sync_channel(depth)
}

/// `std::sync::mpsc::sync_channel` for frames: the two ends of an empty channel
/// in which `depth` frames can wait. It panics where the buffer would be larger
/// than an allocation can be.
#[verifier::external_body]
pub(crate) fn new_frame_channel(depth: usize) -> (ends: (
    SyncSender<PcmFrame>,
    Receiver<PcmFrame>,
))
    requires
        depth <= 0x1_0000,
    ensures
        frame_stream(ends.0) == frame_output(ends.1),
        frame_depth(ends.0) == depth,
        frame_positions(ends.0) == Seq::<int>::empty(),
        frame_accepted(ends.0) == 0,
        frame_taken(ends.0) == 0,
        !frame_gone(ends.0),
        frame_output_count(ends.1) == 0,
{
    std::sync::mpsc::sync_channel(depth)
}

/// `std::sync::mpsc::SyncSender::clone` on frames: another handle on the same
/// channel, through which nothing has been sent yet.
#[verifier::external_body]
pub(crate) fn clone_frame_sender(tx: &SyncSender<PcmFrame>) -> (r: SyncSender<PcmFrame>)
    ensures
        frame_sender(r) == (SenderView { positions: Seq::empty(), ..frame_sender(*tx) }),
{
    tx.clone()
}

/// `std::sync::mpsc::SyncSender::clone` on decoder messages: another handle on
/// the same channel, through which nothing has been sent yet.
#[verifier::external_body]
pub(crate) fn clone_message_sender(tx: &SyncSender<DecoderMsg>) -> (r: SyncSender<DecoderMsg>)
    ensures
        message_sender(r) == (SenderView { positions: Seq::empty(), ..message_sender(*tx) }),
{
    tx.clone()
}

/// `std::sync::mpsc::SyncSender::try_send` on frames: does not wait. The frame
/// becomes the newest of the stream when there is room and the receiver lives.
/// Otherwise nothing is sent, and that very frame comes back: as full while as
/// many frames wait as can, as disconnected once the receiver is gone. Whether
/// there is room is up to the receiving task.
#[verifier::external_body]
pub(crate) fn try_send_frame(tx: &mut SyncSender<PcmFrame>, frame: PcmFrame) -> (r: Result<
    (),
    TrySendError<PcmFrame>,
>)
    ensures
        frame_sender(*old(tx)).offered(frame@, answer_of(r), frame_sender(*final(tx))),
        r matches Err(e) ==> e.message() == frame,
{
    match tx.try_send(frame) {
        Ok(()) => Ok(()),
        Err(std::sync::mpsc::TrySendError::Full(f)) => Err(TrySendError::Full(f)),
        Err(std::sync::mpsc::TrySendError::Disconnected(f)) => Err(TrySendError::Disconnected(f)),
    }
}

/// `std::sync::mpsc::SyncSender::try_send` on decoder messages: does not wait.
/// The message becomes the newest of the stream when there is room and the
/// receiver lives. Otherwise nothing is sent, and that very message comes back:
/// as full while as many messages wait as can, as disconnected once the
/// receiver is gone. Whether there is room is up to the receiving task.
#[verifier::external_body]
pub(crate) fn try_send_message(tx: &mut SyncSender<DecoderMsg>, message: DecoderMsg) -> (r: Result<
    (),
    TrySendError<DecoderMsg>,
>)
    ensures
        message_sender(*old(tx)).offered(message@, answer_of(r), message_sender(*final(tx))),
        r matches Err(e) ==> e.message() == message,
{
    match tx.try_send(message) {
        Ok(()) => Ok(()),
        Err(std::sync::mpsc::TrySendError::Full(m)) => Err(TrySendError::Full(m)),
        Err(std::sync::mpsc::TrySendError::Disconnected(m)) => Err(TrySendError::Disconnected(m)),
    }
}

/// `std::sync::mpsc::SyncSender::send` on decoder messages: waits for room while
/// the receiver lives. The message becomes the newest of the stream, or nothing
/// is sent and that very message comes back because the receiver is gone.
#[verifier::external_body]
pub(crate) fn send_message(tx: &mut SyncSender<DecoderMsg>, message: DecoderMsg) -> (r: Result<
    (),
    DecoderMsg,
>)
    ensures
        message_sender(*old(tx)).offered(
            message@,
            if r is Ok {
                Answer::Taken
            } else {
                Answer::Gone
            },
            message_sender(*final(tx)),
        ),
        r matches Err(m) ==> m == message,
{
    match tx.send(message) {
        Ok(()) => Ok(()),
        Err(e) => Err(e.0),
    }
}

/// `std::sync::mpsc::Receiver::recv` on decoder messages: waits for the next
/// message of the stream and takes it out. There is none only when all handles
/// are gone and nothing waits, so that the stream has ended.
#[verifier::external_body]
pub(crate) fn recv_message(rx: &mut Receiver<DecoderMsg>) -> (r: Option<DecoderMsg>)
    ensures
        match r {
            Some(m) => {
                &&& message_receiver(*old(rx)).next() == Some(m@)
                &&& message_receiver(*final(rx)) == message_receiver(*old(rx)).advanced(1)
            },
            None => {
                &&& message_receiver(*old(rx)).next() is None
                &&& message_receiver(*final(rx)) == message_receiver(*old(rx))
            },
        },
{
    match rx.recv() {
        Ok(m) => Some(m),
        Err(_) => None,
    }
}

/// `std::sync::mpsc::Receiver::try_recv` on decoder messages: takes out the next
/// message of the stream, if one waits, and does not wait for it. It gives none
/// only when every message accepted by then has been taken out; whether that is
/// so is up to the sending tasks. It is disconnected when all handles are gone
/// besides, so that the stream has ended.
#[verifier::external_body]
pub(crate) fn try_recv_message(rx: &mut Receiver<DecoderMsg>) -> (r: Result<
    DecoderMsg,
    TryRecvError,
>)
    ensures
        message_output_accepted(*old(rx)) <= message_output_accepted(*final(rx)),
        match r {
            Ok(m) => {
                &&& message_receiver(*old(rx)).next() == Some(m@)
                &&& message_receiver(*final(rx)) == message_receiver(*old(rx)).advanced(1)
                &&& message_output_count(*final(rx)) <= message_output_accepted(*final(rx))
            },
            Err(e) => {
                &&& e is Disconnected ==> message_receiver(*old(rx)).next() is None
                &&& message_receiver(*final(rx)) == message_receiver(*old(rx))
                &&& message_output_accepted(*final(rx)) == message_output_count(*final(rx))
            },
        },
{
    match rx.try_recv() {
        Ok(m) => Ok(m),
        Err(std::sync::mpsc::TryRecvError::Empty) => Err(TryRecvError::Empty),
        Err(std::sync::mpsc::TryRecvError::Disconnected) => Err(TryRecvError::Disconnected),
    }
}

/// `std::sync::mpsc::Receiver::recv` on frames: waits for the next frame of the
/// stream and takes it out. There is none only when all handles are gone and
/// nothing waits, so that the stream has ended.
#[verifier::external_body]
pub(crate) fn recv_frame(rx: &mut Receiver<PcmFrame>) -> (r: Option<PcmFrame>)
    ensures
        match r {
            Some(frame) => {
                &&& frame_receiver(*old(rx)).next() == Some(frame@)
                &&& frame_receiver(*final(rx)) == frame_receiver(*old(rx)).advanced(1)
            },
            None => {
                &&& frame_receiver(*old(rx)).next() is None
                &&& frame_receiver(*final(rx)) == frame_receiver(*old(rx))
            },
        },
{
    match rx.recv() {
        Ok(frame) => Some(frame),
        Err(_) => None,
    }
}

/// An offer adds the message to the handle's log when it is taken, and nothing
/// otherwise. It keeps a handle well-formed.
pub proof fn law_offer_adds_one_message_or_none<M>(
    before: SenderView<M>,
    m: M,
    answer: Answer,
    after: SenderView<M>,
)
    requires
        before.offered(m, answer, after),
    ensures
        after.log() == (if answer is Taken {
            before.log().push(m)
        } else {
            before.log()
        }),
        before.wf() ==> after.wf(),
{
    assert(after.log() =~= (if answer is Taken {
        before.log().push(m)
    } else {
        before.log()
    }));
}

/// Messages are received in the order in which a handle sent them, each as it
/// was sent, whatever other handles send in between.
pub proof fn law_messages_are_received_in_order<M>(
    sender: SenderView<M>,
    receiver: ReceiverView<M>,
    i: int,
    j: int,
)
    requires
        sender.wf(),
        sender.stream == receiver.stream,
        0 <= i < j < sender.log().len(),
        sender.positions[j] < receiver.count,
    ensures
        sender.positions[i] < sender.positions[j],
        receiver.received()[sender.positions[i]] == sender.log()[i],
        receiver.received()[sender.positions[j]] == sender.log()[j],
{
}

/// A message that was accepted and not taken out yet is there to be received.
pub proof fn law_accepted_messages_arrive<M>(sender: SenderView<M>, receiver: ReceiverView<M>)
    requires
        sender.wf(),
        sender.stream == receiver.stream,
        receiver.count < sender.accepted,
    ensures
        receiver.next() is Some,
{
}

/// Where all that the channel accepted came through one handle, what is
/// received is what that handle sent, in order, with none lost and none
/// repeated. The handle is looked at no earlier than the receiver, so that it
/// has sent at least what the other has received.
pub proof fn law_only_sender_is_replayed<M>(sender: SenderView<M>, receiver: ReceiverView<M>)
    requires
        sender.wf(),
        sender.stream == receiver.stream,
        sender.accepted == sender.log().len(),
        receiver.count <= sender.log().len(),
    ensures
        receiver.received() == sender.log().take(receiver.count as int),
{
    assert forall|i: int| 0 <= i < receiver.count implies #[trigger] receiver.received()[i]
        == sender.log()[i] by {
        lemma_positions_are_dense(sender, i);
    }
    assert(receiver.received() =~= sender.log().take(receiver.count as int));
}

proof fn lemma_positions_are_dense<M>(sender: SenderView<M>, i: int)
    requires
        sender.wf(),
        sender.accepted == sender.positions.len(),
        0 <= i < sender.positions.len(),
    ensures
        sender.positions[i] == i,
{
    lemma_position_at_least(sender, i);
    lemma_position_at_most(sender, i);
}

proof fn lemma_position_at_least<M>(sender: SenderView<M>, i: int)
    requires
        sender.wf(),
        0 <= i < sender.positions.len(),
    ensures
        sender.positions[i] >= i,
    decreases i,
{
    if i > 0 {
        lemma_position_at_least(sender, i - 1);
        assert(sender.positions[i - 1] < sender.positions[i]);
    }
}

proof fn lemma_position_at_most<M>(sender: SenderView<M>, i: int)
    requires
        sender.wf(),
        sender.accepted == sender.positions.len(),
        0 <= i < sender.positions.len(),
    ensures
        sender.positions[i] <= i,
    decreases sender.positions.len() - i,
{
    if i + 1 < sender.positions.len() {
        lemma_position_at_most(sender, i + 1);
        assert(sender.positions[i] < sender.positions[i + 1]);
    }
}

/// One offer of a series.
pub struct Offer<M> {
    pub before: SenderView<M>,
    pub message: M,
    pub answer: Answer,
    pub after: SenderView<M>,
}

/// How many of the offers were taken.
pub open spec fn taken_offers<M>(offers: Seq<Offer<M>>) -> nat
    decreases offers.len(),
{
    if offers.len() == 0 {
        0
    } else {
        taken_offers(offers.drop_last()) + if offers.last().answer is Taken {
            1nat
        } else {
            0nat
        }
    }
}

/// The offers are made one after the other on an empty channel, through one
/// handle or several. Nothing else is sent, nothing is taken out, and the
/// receiver lives.
pub open spec fn undisturbed<M>(offers: Seq<Offer<M>>, stream: Map<int, M>, depth: nat) -> bool {
    forall|i: int|
        0 <= i < offers.len() ==> {
            let offer = #[trigger] offers[i];
            &&& offer.before.offered(offer.message, offer.answer, offer.after)
            &&& offer.after.stream == stream
            &&& offer.after.depth == depth
            &&& offer.after.accepted == taken_offers(offers.take(i + 1))
            &&& offer.after.taken == 0
            &&& !offer.after.gone
        }
}

/// A channel that nobody receives from takes as many messages as its depth, in
/// the order of the offers, and refuses the others as full.
pub proof fn law_channel_holds_its_depth<M>(
    offers: Seq<Offer<M>>,
    stream: Map<int, M>,
    depth: nat,
)
    requires
        undisturbed(offers, stream, depth),
    ensures
        forall|i: int|
            0 <= i < offers.len() ==> (#[trigger] offers[i]).answer == (if i < depth {
                Answer::Taken
            } else {
                Answer::Full
            }),
        forall|i: int|
            0 <= i < offers.len() && i < depth ==> stream[i] == (#[trigger] offers[i]).message,
        taken_offers(offers) == (if offers.len() < depth {
            offers.len()
        } else {
            depth
        }),
    decreases offers.len(),
{
    if offers.len() > 0 {
        let front = offers.drop_last();
        assert forall|i: int| 0 <= i < front.len() implies {
            let offer = #[trigger] front[i];
            &&& offer.before.offered(offer.message, offer.answer, offer.after)
            &&& offer.after.stream == stream
            &&& offer.after.depth == depth
            &&& offer.after.accepted == taken_offers(front.take(i + 1))
            &&& offer.after.taken == 0
            &&& !offer.after.gone
        } by {
            assert(front[i] == offers[i]);
            assert(front.take(i + 1) =~= offers.take(i + 1));
        }
        law_channel_holds_its_depth(front, stream, depth);
        let last = offers[offers.len() - 1];
        assert(offers.take(offers.len() as int) =~= offers);
        assert forall|i: int| 0 <= i < offers.len() implies (#[trigger] offers[i]).answer == (if i
            < depth {
            Answer::Taken
        } else {
            Answer::Full
        }) by {
            if i < front.len() {
                assert(front[i] == offers[i]);
            }
        }
        assert forall|i: int| 0 <= i < offers.len() && i < depth implies stream[i] == (
        #[trigger] offers[i]).message by {
            if i < front.len() {
                assert(front[i] == offers[i]);
            }
        }
    }
}

/// An answer is told by its result: taken, full, or gone. A refused message is
/// the one that comes back.
pub proof fn law_results_tell_the_answer<T>(message: T)
    ensures
        answer_of(Ok::<(), TrySendError<T>>(())) is Taken,
        answer_of(Err::<(), TrySendError<T>>(TrySendError::Full(message))) is Full,
        answer_of(Err::<(), TrySendError<T>>(TrySendError::Disconnected(message))) is Gone,
        TrySendError::Full(message).message() == message,
        TrySendError::Disconnected(message).message() == message,
{
}

/// A receiver that is gone stays gone: every later offer through the handle is
/// refused so, and sends nothing.
pub proof fn law_gone_receiver_stays_gone<M>(
    before: SenderView<M>,
    m: M,
    answer: Answer,
    after: SenderView<M>,
)
    requires
        before.offered(m, answer, after),
        before.gone,
    ensures
        answer is Gone,
        after.gone,
        after.positions == before.positions,
{
}

/// A taken message stands in the stream at a position behind all that was
/// accepted before, which is the last of the handle's own. Each message of the
/// log is the one at its position.
pub proof fn law_taken_message_has_its_place<M>(
    before: SenderView<M>,
    m: M,
    after: SenderView<M>,
    i: int,
)
    requires
        before.offered(m, Answer::Taken, after),
        0 <= i < after.positions.len(),
    ensures
        after.positions.len() == before.positions.len() + 1,
        after.positions.last() >= before.accepted,
        after.stream[after.positions.last()] == m,
        after.stream == before.stream,
        after.log().len() == after.positions.len(),
        after.log()[i] == after.stream[after.positions[i]],
{
}

/// The receiver goes along the stream one message at a time, from the first on.
pub proof fn law_receiver_goes_along_the_stream<M>(receiver: ReceiverView<M>)
    ensures
        receiver.received().len() == receiver.count,
        forall|i: int|
            0 <= i < receiver.count ==> #[trigger] receiver.received()[i] == receiver.stream[i],
        receiver.next() matches Some(m) ==> m == receiver.stream[receiver.count as int],
        receiver.next() is None <==> !receiver.stream.dom().contains(receiver.count as int),
        receiver.advanced(1).stream == receiver.stream,
        receiver.advanced(1).count == receiver.count + 1,
        receiver.advanced(1).received() == receiver.received().push(
            receiver.stream[receiver.count as int],
        ),
{
    assert(receiver.advanced(1).received() =~= receiver.received().push(
        receiver.stream[receiver.count as int],
    ));
}

} // verus!
