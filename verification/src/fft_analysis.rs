//! The spectrum analyser's input.
//!
//! Samples are put in a ring as they come. The analyser takes them out in
//! windows, one after the other; the transform itself is its caller's.

use rtrb::{Consumer, Producer};
use vstd::prelude::*;

use crate::sample_ring::{new_sample_ring, pop_entire_slice, push_entire_slice, ChunkError};

verus! {

use crate::sample_ring::{
    input_capacity,
    input_count,
    input_read,
    input_stream,
    output_count,
    output_stream,
    output_written,
    stream_part,
};

/// Samples per transform.
pub const WINDOW_SIZE: usize = 1024;

/// The ring's capacity in samples: four windows.
pub const RING_SIZE: usize = 4 * WINDOW_SIZE;

/// Stack of the analyser's task beside its buffers.
pub const STACK_BASE: usize = 8192;

/// Bytes of the strip's colours, which the analyser's task works out too.
pub const STRIP_BYTES: usize = 3 * 20;

/// The writing end: takes samples.
pub struct FFTAnalysis {
    tx: Producer<u8>,
}

/// The reading end: gives windows.
pub struct WindowReader {
    rx: Consumer<u8>,
}

impl FFTAnalysis {
    /// Every sample that the ring carries, by position.
    pub closed spec fn stream(self) -> Map<int, u8> {
        input_stream(self.tx)
    }

    /// How many samples have been taken.
    pub closed spec fn count(self) -> nat {
        input_count(self.tx)
    }

    /// How many samples the ring can hold.
    pub closed spec fn capacity(self) -> nat {
        input_capacity(self.tx)
    }

    /// How many of the samples taken the reader had read when the ring was last
    /// looked at.
    pub closed spec fn read(self) -> nat {
        input_read(self.tx)
    }

    /// The samples taken so far.
    pub open spec fn sent(self) -> Seq<u8> {
        stream_part(self.stream(), 0, self.count())
    }

    /// The two ends of a new ring.
    pub fn channel() -> (ends: (FFTAnalysis, WindowReader))
        ensures
            ends.0.stream() == ends.1.stream(),
            ends.0.count() == 0,
            ends.1.count() == 0,
            ends.0.capacity() == RING_SIZE,
            ends.0.read() == 0,
            ends.1.written() == 0,
    {
        let (tx, rx) = new_sample_ring(RING_SIZE);
        (FFTAnalysis { tx }, WindowReader { rx })
    }

    /// Takes all of `buffer`, exactly when it fits the ring beside the samples
    /// that are not read yet; or none of it, and tells how much would fit. How
    /// much is read by then is up to the reader.
    pub fn send_pcm(&mut self, buffer: &[u8]) -> (r: Result<(), ChunkError>)
        ensures
            final(self).stream() == old(self).stream(),
            final(self).capacity() == old(self).capacity(),
            r is Ok ==> {
                &&& final(self).count() == old(self).count() + buffer@.len()
                &&& final(self).sent() == old(self).sent() + buffer@
            },
            r is Err ==> {
                &&& final(self).count() == old(self).count()
                &&& final(self).sent() == old(self).sent()
            },
            old(self).read() <= final(self).read() <= old(self).count(),
            old(self).count() <= final(self).read() + old(self).capacity(),
            r is Ok <==> old(self).count() + buffer@.len()
                <= final(self).read() + old(self).capacity(),
            r matches Err(ChunkError::TooFewSlots(free)) ==>
                old(self).count() + free == final(self).read() + old(self).capacity(),
    {
        let r = push_entire_slice(&mut self.tx, buffer);
        proof {
            if r is Ok {
                assert forall|i: int| 0 <= i < buffer@.len() implies self.stream()[old(
                    self,
                ).count() + i] == buffer@[i] by {
                    assert(stream_part(old(self).stream(), old(self).count(), buffer@.len())[i]
                        == buffer@[i]);
                }
                assert(self.sent() =~= old(self).sent() + buffer@);
            }
        }
        r
    }
}

impl WindowReader {
    /// Every sample that the ring carries, by position.
    pub closed spec fn stream(self) -> Map<int, u8> {
        output_stream(self.rx)
    }

    /// How many samples have been given.
    pub closed spec fn count(self) -> nat {
        output_count(self.rx)
    }

    /// How many samples had been written when the ring was last looked at.
    pub closed spec fn written(self) -> nat {
        output_written(self.rx)
    }

    /// The samples given so far.
    pub open spec fn received(self) -> Seq<u8> {
        stream_part(self.stream(), 0, self.count())
    }

    /// The next window, exactly when a whole one has been written. Whether it
    /// has is up to the writer.
    pub fn next_window(&mut self) -> (r: Option<[u8; WINDOW_SIZE]>)
        ensures
            final(self).stream() == old(self).stream(),
            old(self).written() <= final(self).written(),
            r is Some <==> old(self).count() + WINDOW_SIZE <= final(self).written(),
            match r {
                Some(window) => {
                    &&& window@ == stream_part(
                        old(self).stream(),
                        old(self).count(),
                        WINDOW_SIZE as nat,
                    )
                    &&& final(self).count() == old(self).count() + WINDOW_SIZE
                    &&& final(self).received() == old(self).received() + window@
                },
                None => {
                    &&& final(self).count() == old(self).count()
                    &&& final(self).received() == old(self).received()
                },
            },
    {
        let mut window = [0u8; WINDOW_SIZE];
        let popped = pop_entire_slice(&mut self.rx, &mut window);
        assert(popped is Ok ==> self.received() =~= old(self).received() + window@);
        WindowReader::window_from(popped, window)
    }

    /// What the analyser gets for the ring's answer: `window` once the ring has
    /// filled it, none while the ring holds less than a window.
    pub fn window_from(popped: Result<(), ChunkError>, window: [u8; WINDOW_SIZE]) -> (r: Option<
        [u8; WINDOW_SIZE],
    >)
        ensures
            r == (match popped {
                Ok(()) => Some(window),
                Err(ChunkError::TooFewSlots(_)) => None,
            }),
    {
        match popped {
            Ok(()) => Some(window),
            Err(ChunkError::TooFewSlots(_)) => None,
        }
    }
}

/// What the analyser sees is what was sent: the windows of a ring, end to end,
/// are the samples that went in, in order, with none lost and none repeated.
/// The writing end is looked at no earlier than the reading end, so that it has
/// taken at least what the other has given.
pub proof fn law_windows_replay_the_samples(analysis: FFTAnalysis, reader: WindowReader)
    requires
        analysis.stream() == reader.stream(),
        reader.received().len() <= analysis.sent().len(),
    ensures
        reader.received() == analysis.sent().take(reader.received().len() as int),
{
    assert(reader.received() =~= analysis.sent().take(reader.received().len() as int));
}

/// The next whole number of KiB.
pub open spec fn whole_kib(bytes: int) -> int {
    (bytes + 1023) / 1024 * 1024
}

/// Stack of the analyser's task: its buffers and room besides, in whole KiB.
/// The buffers are a window of bytes, one of 32-bit floats, and the colours of
/// the strip.
pub fn analyser_stack_size() -> (r: usize)
    ensures
        r == whole_kib(STACK_BASE + WINDOW_SIZE + 4 * WINDOW_SIZE + STRIP_BYTES),
{
    round_up_kib(STACK_BASE + WINDOW_SIZE + 4 * WINDOW_SIZE + STRIP_BYTES)
}

/// Rounds up to whole KiB.
pub fn round_up_kib(bytes: usize) -> (r: usize)
    requires
        bytes <= usize::MAX - 1023,
    ensures
        r == whole_kib(bytes as int),
{
    (bytes + 1023) / 1024 * 1024
}

/// Rounding up gives the smallest whole number of KiB that is enough.
pub proof fn law_rounding_gives_the_next_kib(bytes: int)
    ensures
        whole_kib(bytes) % 1024 == 0,
        bytes <= whole_kib(bytes) < bytes + 1024,
{
}

/// What has been sent and what has been received are the first samples of the
/// ring, by position.
pub proof fn law_ends_count_along_the_stream(analysis: FFTAnalysis, reader: WindowReader)
    ensures
        analysis.sent().len() == analysis.count(),
        forall|i: int|
            0 <= i < analysis.count() ==> #[trigger] analysis.sent()[i] == analysis.stream()[i],
        reader.received().len() == reader.count(),
        forall|i: int|
            0 <= i < reader.count() ==> #[trigger] reader.received()[i] == reader.stream()[i],
{
}

/// A part of a stream is its samples from a position on, one after the other.
pub proof fn law_parts_are_cut_by_position(stream: Map<int, u8>, start: nat, len: nat)
    ensures
        stream_part(stream, start, len).len() == len,
        forall|i: int|
            0 <= i < len ==> #[trigger] stream_part(stream, start, len)[i] == stream[start + i],
{
}

/// A window is 1024 samples, and the ring holds four of them.
pub proof fn law_analyser_sizes()
    ensures
        WINDOW_SIZE == 1024,
        RING_SIZE == 4096,
{
}

} // verus!
