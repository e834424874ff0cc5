//! The ring of samples between the Bluetooth callback and the analyser.
//!
//! It is an `rtrb` ring: one end is written, the other read, each by a task of
//! its own. An end is described by the ring's stream, which is the bytes that
//! are written to it while it exists, by position, and by how many of them
//! have passed that end. A position of the stream is settled when it is
//! written, and cannot be read before.

use rtrb::{Consumer, Producer};
use vstd::prelude::*;

verus! {

/// `rtrb::Producer`, the end of a ring that is written.
#[verifier::external_type_specification]
#[verifier::external_body]
#[verifier::reject_recursive_types(T)]
pub struct ExProducer<T>(Producer<T>);

/// `rtrb::Consumer`, the end of a ring that is read.
#[verifier::external_type_specification]
#[verifier::external_body]
#[verifier::reject_recursive_types(T)]
pub struct ExConsumer<T>(Consumer<T>);

/// The stream of the ring that this end writes.
pub uninterp spec fn input_stream(tx: Producer<u8>) -> Map<int, u8>;

/// How many bytes this end has written.
pub uninterp spec fn input_count(tx: Producer<u8>) -> nat;

/// How many bytes the ring can hold.
pub uninterp spec fn input_capacity(tx: Producer<u8>) -> nat;

/// How many bytes had been read at the other end when this end last looked.
pub uninterp spec fn input_read(tx: Producer<u8>) -> nat;

/// The stream of the ring that this end reads.
pub uninterp spec fn output_stream(rx: Consumer<u8>) -> Map<int, u8>;

/// How many bytes this end has read.
pub uninterp spec fn output_count(rx: Consumer<u8>) -> nat;

/// How many bytes had been written at the other end when this end last looked.
pub uninterp spec fn output_written(rx: Consumer<u8>) -> nat;

/// The bytes at `len` positions of a stream, from `start` on.
pub open spec fn stream_part(stream: Map<int, u8>, start: nat, len: nat) -> Seq<u8> {
    Seq::new(len, |i: int| stream[start + i])
}

/// Fewer slots than asked for were free, or filled.
#[derive(Debug, Clone, Copy, PartialEq, Eq, Structural)]
pub enum ChunkError {
    /// How many there were.
    TooFewSlots(usize),
}

/// `rtrb::RingBuffer::new` for bytes: the two ends of an empty ring of the
/// given capacity. It panics where the ring would be larger than an allocation
/// can be.
#[verifier::external_body]
pub(crate) fn new_sample_ring(capacity: usize) -> (ends: (Producer<u8>, Consumer<u8>))
    requires
        capacity <= isize::MAX,
    ensures
        input_stream(ends.0) == output_stream(ends.1),
        input_count(ends.0) == 0,
        output_count(ends.1) == 0,
        input_capacity(ends.0) == capacity,
        input_read(ends.0) == 0,
        output_written(ends.1) == 0,
{
    rtrb::RingBuffer::new(capacity)
}

/// `rtrb::Producer::push_entire_slice` for bytes: the whole slice becomes the
/// next part of the stream, when it fits beside the bytes that are not read
/// yet. Otherwise nothing is written and the error holds the number of free
/// slots. How many bytes are read is seen at the call: the other end is looked
/// at again before a slice is refused.
#[verifier::external_body]
pub(crate) fn push_entire_slice(tx: &mut Producer<u8>, slice: &[u8]) -> (r: Result<(), ChunkError>)
    ensures
        input_stream(*final(tx)) == input_stream(*old(tx)),
        input_capacity(*final(tx)) == input_capacity(*old(tx)),
        input_read(*old(tx)) <= input_read(*final(tx)) <= input_count(*old(tx)),
        input_count(*old(tx)) <= input_read(*final(tx)) + input_capacity(*old(tx)),
        match r {
            Ok(()) => {
                &&& input_count(*final(tx)) == input_count(*old(tx)) + slice@.len()
                &&& stream_part(input_stream(*old(tx)), input_count(*old(tx)), slice@.len())
                    == slice@
                &&& input_count(*final(tx)) <= input_read(*final(tx)) + input_capacity(*old(tx))
            },
            Err(ChunkError::TooFewSlots(free)) => {
                &&& input_count(*final(tx)) == input_count(*old(tx))
                &&& free < slice@.len()
                &&& input_count(*old(tx)) + free == input_read(*final(tx)) + input_capacity(
                    *old(tx),
                )
            },
        },
{
    match tx.push_entire_slice(slice) {
        Ok(()) => Ok(()),
        Err(rtrb::chunks::ChunkError::TooFewSlots(n)) => Err(ChunkError::TooFewSlots(n)),
    }
}

/// `rtrb::Consumer::pop_entire_slice` for bytes: the slice is filled with the
/// next part of the stream, when that has been written. Otherwise nothing is
/// read and the error holds the number of filled slots. How many bytes are
/// written is seen at the call: the other end is looked at again before a slice
/// is left unfilled.
#[verifier::external_body]
pub(crate) fn pop_entire_slice(rx: &mut Consumer<u8>, slice: &mut [u8]) -> (r: Result<
    (),
    ChunkError,
>)
    ensures
        output_stream(*final(rx)) == output_stream(*old(rx)),
        output_written(*old(rx)) <= output_written(*final(rx)),
        final(slice)@.len() == old(slice)@.len(),
        match r {
            Ok(()) => {
                &&& output_count(*final(rx)) == output_count(*old(rx)) + old(slice)@.len()
                &&& output_count(*final(rx)) <= output_written(*final(rx))
                &&& final(slice)@ == stream_part(
                    output_stream(*old(rx)),
                    output_count(*old(rx)),
                    old(slice)@.len(),
                )
            },
            Err(ChunkError::TooFewSlots(filled)) => {
                &&& output_count(*final(rx)) == output_count(*old(rx))
                &&& final(slice)@ == old(slice)@
                &&& filled < old(slice)@.len()
                &&& output_count(*old(rx)) + filled == output_written(*final(rx))
            },
        },
{
    match rx.pop_entire_slice(slice) {
        Ok(()) => Ok(()),
        Err(rtrb::chunks::ChunkError::TooFewSlots(n)) => Err(ChunkError::TooFewSlots(n)),
    }
}

} // verus!
