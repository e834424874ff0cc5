//! The ring of LED frames between the analyser and the strip's task.
//!
//! It is an `rtrb` ring, described as the one in [`crate::sample_ring`] is: by
//! its stream, here of frames, and by how many have passed an end. A frame of
//! the stream is its colour words.

use rtrb::{Consumer, Producer};
use vstd::prelude::*;

use crate::led_output::{LED_COUNT, RGB8};

verus! {

/// The colour words of a frame.
pub open spec fn words(frame: [RGB8; LED_COUNT]) -> Seq<u32> {
    frame@.map_values(|colour: RGB8| colour.0)
}

/// The stream of the ring that this end writes.
pub uninterp spec fn led_input_stream(tx: Producer<[RGB8; LED_COUNT]>) -> Map<int, Seq<u32>>;

/// How many frames this end has written.
pub uninterp spec fn led_input_count(tx: Producer<[RGB8; LED_COUNT]>) -> nat;

/// How many frames the ring can hold.
pub uninterp spec fn led_input_capacity(tx: Producer<[RGB8; LED_COUNT]>) -> nat;

/// How many frames had been read at the other end when this end last looked.
pub uninterp spec fn led_input_read(tx: Producer<[RGB8; LED_COUNT]>) -> nat;

/// The stream of the ring that this end reads.
pub uninterp spec fn led_output_stream(rx: Consumer<[RGB8; LED_COUNT]>) -> Map<int, Seq<u32>>;

/// How many frames this end has read.
pub uninterp spec fn led_output_count(rx: Consumer<[RGB8; LED_COUNT]>) -> nat;

/// How many frames had been written at the other end when this end last looked.
pub uninterp spec fn led_output_written(rx: Consumer<[RGB8; LED_COUNT]>) -> nat;

/// The first frames of a stream.
pub open spec fn stream_start(stream: Map<int, Seq<u32>>, len: nat) -> Seq<Seq<u32>> {
    Seq::new(len, |i: int| stream[i])
}

/// `rtrb::RingBuffer::new` for LED frames: the two ends of an empty ring of the
/// given capacity. It panics where the ring would be larger than an allocation
/// can be; a frame is 80 bytes.
#[verifier::external_body]
pub(crate) fn new_led_ring(capacity: usize) -> (ends: (
    Producer<[RGB8; LED_COUNT]>,
    Consumer<[RGB8; LED_COUNT]>,
))
    requires
        capacity * 80 <= isize::MAX,
    ensures
        led_input_stream(ends.0) == led_output_stream(ends.1),
        led_input_count(ends.0) == 0,
        led_output_count(ends.1) == 0,
        led_input_capacity(ends.0) == capacity,
        led_input_read(ends.0) == 0,
        led_output_written(ends.1) == 0,
{
    rtrb::RingBuffer::new(capacity)
}

/// `rtrb::Producer::push` for LED frames: the frame becomes the next of the
/// stream, or it is not written because the ring is full of frames that are not
/// read yet. How many are read is seen at the call: the other end is looked at
/// again before a frame is refused.
#[verifier::external_body]
pub(crate) fn push_frame(
    tx: &mut Producer<[RGB8; LED_COUNT]>,
    frame: [RGB8; LED_COUNT],
) -> (r: Result<(), ()>)
    ensures
        led_input_stream(*final(tx)) == led_input_stream(*old(tx)),
        led_input_capacity(*final(tx)) == led_input_capacity(*old(tx)),
        led_input_read(*old(tx)) <= led_input_read(*final(tx)) <= led_input_count(*old(tx)),
        r is Ok ==> {
            &&& led_input_count(*final(tx)) == led_input_count(*old(tx)) + 1
            &&& led_input_stream(*old(tx))[led_input_count(*old(tx)) as int] == words(frame)
            &&& led_input_count(*final(tx)) <= led_input_read(*final(tx)) + led_input_capacity(
                *old(tx),
            )
        },
        r is Err ==> {
            &&& led_input_count(*final(tx)) == led_input_count(*old(tx))
            &&& led_input_count(*old(tx)) == led_input_read(*final(tx)) + led_input_capacity(
                *old(tx),
            )
        },
{
    match tx.push(frame) {
        Ok(()) => Ok(()),
        Err(rtrb::PushError::Full(_)) => Err(()),
    }
}

/// `rtrb::Consumer::pop` for LED frames: the next frame of the stream, or none
/// when every frame that has been written is read. How many are written is seen
/// at the call: the other end is looked at again before none is given.
#[verifier::external_body]
pub(crate) fn pop_frame(rx: &mut Consumer<[RGB8; LED_COUNT]>) -> (r: Option<[RGB8; LED_COUNT]>)
    ensures
        led_output_stream(*final(rx)) == led_output_stream(*old(rx)),
        led_output_written(*old(rx)) <= led_output_written(*final(rx)),
        match r {
            Some(frame) => {
                &&& led_output_count(*final(rx)) == led_output_count(*old(rx)) + 1
                &&& led_output_count(*final(rx)) <= led_output_written(*final(rx))
                &&& led_output_stream(*old(rx))[led_output_count(*old(rx)) as int] == words(frame)
            },
            None => {
                &&& led_output_count(*final(rx)) == led_output_count(*old(rx))
                &&& led_output_count(*old(rx)) == led_output_written(*final(rx))
            },
        },
{
    match rx.pop() {
        Ok(frame) => Some(frame),
        Err(rtrb::PopError::Empty) => None,
    }
}

/// The words of a frame are those of its colours, in order.
pub proof fn law_words_are_those_of_the_colours(frame: [RGB8; LED_COUNT])
    ensures
        words(frame).len() == LED_COUNT,
        forall|i: int| 0 <= i < LED_COUNT ==> #[trigger] words(frame)[i] == frame@[i].0,
{
}

} // verus!
