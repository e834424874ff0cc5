//! Microphone capture.
//!
//! The microphone puts 24 bits left-justified in a 32-bit slot. The upper 16
//! are kept; a DC blocker and a digital gain follow, which are the caller's.
//! What comes back is clipped to 16 bits and put in a ring that the hands-free
//! link draws from.

use std::collections::VecDeque;
use vstd::prelude::*;

use crate::audio::sample::{sample_from_le, sample_magnitude, sample_to_le};
use crate::stats::Counters;

verus! {

use crate::audio::sample::{
    encode_samples,
    law_samples_round_trip,
    magnitude,
    sample_bytes,
    sample_value,
};
use crate::stats::{count_up, law_count_up_adds, max_peak};

/// Capture runs at the rate of the call audio link.
pub const SAMPLE_RATE_HZ: u32 = 16_000;

/// The ring holds a quarter of a second: 8 KiB.
pub const RING_CAPACITY: usize = 8192;

/// Slots per read of the driver: 2 ms.
pub const SAMPLES_PER_READ: usize = 32;

/// Gain at start: +14 dB.
pub const DEFAULT_GAIN_MILLI_DB: i32 = 14_000;

/// The signed 32-bit value of the `k`-th slot.
pub open spec fn slot_value(raw: Seq<u8>, k: int) -> int {
    raw[4 * k] + 256 * raw[4 * k + 1] + 65536 * sample_value(raw[4 * k + 2], raw[4 * k + 3])
}

/// The upper 16 bits of each whole slot of `raw`.
pub open spec fn slot_samples(raw: Seq<u8>) -> Seq<int> {
    Seq::new(raw.len() / 4, |k: int| slot_value(raw, k) / 65536)
}

/// A scaled sample brought into 16 bits.
pub open spec fn clipped(scaled: i32) -> i16 {
    if scaled >= i16::MAX {
        i16::MAX
    } else if scaled <= i16::MIN {
        i16::MIN
    } else {
        scaled as i16
    }
}

/// The sample sits at an end of the 16-bit range, or beyond.
pub open spec fn clips(scaled: i32) -> bool {
    scaled >= i16::MAX || scaled <= i16::MIN
}

pub open spec fn clipped_all(scaled: Seq<i32>) -> Seq<i16> {
    scaled.map_values(|s: i32| clipped(s))
}

/// How many of the samples clip.
pub open spec fn clip_count(scaled: Seq<i32>) -> nat
    decreases scaled.len(),
{
    if scaled.len() == 0 {
        0
    } else {
        clip_count(scaled.drop_last()) + if clips(scaled.last()) {
            1nat
        } else {
            0nat
        }
    }
}

/// The largest magnitude among the clipped samples.
pub open spec fn clipped_peak(scaled: Seq<i32>) -> int
    decreases scaled.len(),
{
    if scaled.len() == 0 {
        0
    } else {
        let before = clipped_peak(scaled.drop_last());
        let here = magnitude(clipped(scaled.last()) as int);
        if here > before {
            here
        } else {
            before
        }
    }
}

/// The ring after `bytes` are put in: as many as there is room for.
pub open spec fn ring_after(ring: Seq<u8>, bytes: Seq<u8>) -> Seq<u8> {
    if ring.len() + bytes.len() <= RING_CAPACITY {
        ring + bytes
    } else {
        ring + bytes.take(RING_CAPACITY - ring.len())
    }
}

/// The counters after a capture.
pub open spec fn capture_counted(ring: Seq<u8>, scaled: Seq<i32>, c: Counters) -> Counters {
    Counters {
        mic_clip_count: count_up(c.mic_clip_count, clip_count(scaled)),
        mic_peak_abs: max_peak(c.mic_peak_abs, clipped_peak(scaled) as u16),
        mic_ring_overflows: if ring.len() + 2 * scaled.len() <= RING_CAPACITY {
            c.mic_ring_overflows
        } else {
            count_up(c.mic_ring_overflows, 1)
        },
        ..c
    }
}

/// What a read of `n` bytes gives: all of them or none.
pub open spec fn ring_read(ring: Seq<u8>, n: int) -> (Option<Seq<u8>>, Seq<u8>) {
    if ring.len() < n {
        (None, ring)
    } else {
        (Some(ring.take(n)), ring.skip(n))
    }
}

/// The upper 16 bits of each whole slot of `raw`, which holds one 32-bit
/// little-endian slot after the other.
pub fn convert_slots(raw: &[u8]) -> (r: Vec<i16>)
    ensures
        r@.len() == raw@.len() / 4,
        forall|k: int| 0 <= k < r@.len() ==> #[trigger] r@[k] == slot_samples(raw@)[k],
{
    let len: usize = raw.len();
    let n: usize = len / 4;
    let mut r: Vec<i16> = Vec::new();
    let mut k: usize = 0;
    while k < n
        invariant
            k <= n,
            n == len / 4,
            len == raw@.len(),
            r@.len() == k,
            forall|j: int| 0 <= j < k ==> #[trigger] r@[j] == slot_samples(raw@)[j],
        decreases n - k,
    {
        r.push(sample_from_le(raw[4 * k + 2], raw[4 * k + 3]));
        k = k + 1;
    }
    r
}

/// Brings a scaled sample into 16 bits and tells whether it clips.
pub fn clip_sample(scaled: i32) -> (r: (i16, bool))
    ensures
        r.0 == clipped(scaled),
        r.1 == clips(scaled),
{
    if scaled >= 32767 {
        (i16::MAX, true)
    } else if scaled <= -32768 {
        (i16::MIN, true)
    } else {
        (scaled as i16, false)
    }
}

/// The microphone's ring and gain.
pub struct Mic {
    ring: VecDeque<u8>,
    gain_milli_db: i32,
}

impl View for Mic {
    type V = Seq<u8>;

    /// The buffered bytes, oldest first.
    closed spec fn view(&self) -> Seq<u8> {
        self.ring@
    }
}

impl Mic {
    /// The ring holds no more than its capacity.
    pub open spec fn wf(self) -> bool {
        self@.len() <= RING_CAPACITY
    }

    /// The gain in thousandths of a decibel.
    pub closed spec fn gain(self) -> i32 {
        self.gain_milli_db
    }

    pub fn new() -> (r: Self)
        ensures
            r.wf(),
            r@ == Seq::<u8>::empty(),
            r.gain() == DEFAULT_GAIN_MILLI_DB,
    {
        Mic {
            ring: VecDeque::with_capacity(RING_CAPACITY),
            gain_milli_db: DEFAULT_GAIN_MILLI_DB,
        }
    }

    /// Fills `dst` from the ring and returns its length, or leaves both alone
    /// and returns 0 when the ring holds less: the hands-free stack rejects
    /// short reads.
    pub fn read(&mut self, dst: &mut [u8]) -> (n: usize)
        requires
            old(self).wf(),
        ensures
            final(self).wf(),
            final(self).gain() == old(self).gain(),
            final(dst)@.len() == old(dst)@.len(),
            final(self)@ == ring_read(old(self)@, old(dst)@.len() as int).1,
            match ring_read(old(self)@, old(dst)@.len() as int).0 {
                Some(bytes) => n == old(dst)@.len() && final(dst)@ == bytes,
                None => n == 0 && final(dst)@ == old(dst)@,
            },
    {
        let len: usize = dst.len();
        if self.ring.len() < len {
            return 0;
        }
        let mut i: usize = 0;
        while i < len
            invariant
                i <= len,
                len == dst@.len(),
                len == old(dst)@.len(),
                len <= old(self)@.len(),
                self.ring@ == old(self)@.skip(i as int),
                self.gain_milli_db == old(self).gain_milli_db,
                dst@.take(i as int) == old(self)@.take(i as int),
            decreases len - i,
        {
            let ghost before = dst@;
            if let Some(byte) = self.ring.pop_front() {
                dst[i] = byte;
            }
            assert(dst@.take(i + 1) == before.take(i as int).push(old(self)@[i as int]));
            assert(old(self)@.take(i + 1) == old(self)@.take(i as int).push(old(self)@[i as int]));
            assert(self.ring@ == old(self)@.skip(i + 1));
            i = i + 1;
        }
        assert(dst@ == dst@.take(len as int));
        len
    }

    /// Drops everything buffered. Called when the call audio opens or closes,
    /// so that the other side hears no stale samples.
    pub fn drain(&mut self)
        ensures
            final(self).wf(),
            final(self)@ == Seq::<u8>::empty(),
            final(self).gain() == old(self).gain(),
    {
        self.ring.clear();
    }

    pub fn set_gain_milli_db(&mut self, milli_db: i32)
        ensures
            final(self)@ == old(self)@,
            final(self).gain() == milli_db,
    {
        self.gain_milli_db = milli_db;
    }

    pub fn gain_milli_db(&self) -> (r: i32)
        ensures
            r == self.gain(),
    {
        self.gain_milli_db
    }

    /// Takes a batch of scaled samples: clips them, notes the peak, and puts
    /// them in the ring. What the ring has no room for is dropped.
    pub fn capture(&mut self, scaled: &[i32], counters: &mut Counters)
        requires
            old(self).wf(),
        ensures
            final(self).wf(),
            final(self).gain() == old(self).gain(),
            final(self)@ == ring_after(old(self)@, encode_samples(clipped_all(scaled@))),
            *final(counters) == capture_counted(old(self)@, scaled@, *old(counters)),
    {
        let n: usize = scaled.len();
        let mut bytes: Vec<u8> = Vec::new();
        let mut peak: u16 = 0;
        let mut k: usize = 0;
        proof {
            law_count_up_adds(counters.mic_clip_count, 0, 0);
            assert(clipped_all(scaled@.take(0)) == Seq::<i16>::empty());
        }
        while k < n
            invariant
                k <= n,
                n == scaled@.len(),
                bytes@ == encode_samples(clipped_all(scaled@.take(k as int))),
                peak == clipped_peak(scaled@.take(k as int)),
                *counters == (Counters {
                    mic_clip_count: count_up(
                        old(counters).mic_clip_count,
                        clip_count(scaled@.take(k as int)),
                    ),
                    ..*old(counters)
                }),
            decreases n - k,
        {
            let (sample, clip) = clip_sample(scaled[k]);
            proof {
                let part = scaled@.take(k as int);
                let next = scaled@.take(k + 1);
                assert(next.drop_last() == part);
                assert(clipped_all(next).drop_last() == clipped_all(part));
                assert(clipped_all(next).last() == sample);
                law_count_up_adds(old(counters).mic_clip_count, clip_count(part), 1);
            }
            if clip {
                counters.record_mic_clip();
            }
            let abs = sample_magnitude(sample);
            if abs > peak {
                peak = abs;
            }
            let (lo, hi) = sample_to_le(sample);
            let ghost sent = bytes@;
            bytes.push(lo);
            bytes.push(hi);
            assert(bytes@ == sent + sample_bytes(sample));
            k = k + 1;
        }
        assert(scaled@.take(n as int) == scaled@);
        counters.record_mic_peak(peak);
        proof {
            law_samples_round_trip(clipped_all(scaled@));
        }
        let total: usize = bytes.len();
        let ghost ring = self.ring@;
        let ghost before = *counters;
        let mut i: usize = 0;
        while i < total && self.ring.len() < RING_CAPACITY
            invariant
                i <= total,
                total == bytes@.len(),
                self.ring@ == ring + bytes@.take(i as int),
                self.ring@.len() <= RING_CAPACITY,
                self.gain_milli_db == old(self).gain_milli_db,
            decreases total - i,
        {
            self.ring.push_back(bytes[i]);
            assert(bytes@.take(i + 1) == bytes@.take(i as int).push(bytes@[i as int]));
            i = i + 1;
        }
        if i < total {
            counters.record_mic_ring_overflow();
        }
        assert(i == total ==> bytes@.take(i as int) == bytes@);
    }
}

/// Shifting a slot right by 16 bits leaves the 16-bit sample that its two upper
/// bytes hold.
pub proof fn law_slot_keeps_upper_bytes(raw: Seq<u8>, k: int)
    requires
        0 <= k < raw.len() / 4,
    ensures
        slot_samples(raw)[k] == sample_value(raw[4 * k + 2], raw[4 * k + 3]),
{
}

/// What was captured is what is read: an empty ring gives back, in one read,
/// the bytes of the clipped samples, and is empty again.
pub proof fn law_read_gives_back_capture(scaled: Seq<i32>)
    requires
        2 * scaled.len() <= RING_CAPACITY,
    ensures
        ring_read(
            ring_after(Seq::empty(), encode_samples(clipped_all(scaled))),
            2 * scaled.len() as int,
        ) == (Some(encode_samples(clipped_all(scaled))), Seq::<u8>::empty()),
{
    law_samples_round_trip(clipped_all(scaled));
    let bytes = encode_samples(clipped_all(scaled));
    assert(Seq::<u8>::empty() + bytes == bytes);
    assert(bytes.take(bytes.len() as int) == bytes);
    assert(bytes.skip(bytes.len() as int) == Seq::<u8>::empty());
}

/// The ring is first in, first out: bytes put in behind others do not change
/// what a read that the others can meet gives.
pub proof fn law_ring_is_first_in_first_out(ring: Seq<u8>, bytes: Seq<u8>, n: int)
    requires
        ring.len() <= RING_CAPACITY,
        0 <= n <= ring.len(),
    ensures
        ring_read(ring_after(ring, bytes), n).0 == ring_read(ring, n).0,
        ring.is_prefix_of(ring_after(ring, bytes)),
        ring_after(ring, bytes).len() <= RING_CAPACITY,
{
    let after = ring_after(ring, bytes);
    assert(after.take(n) == ring.take(n));
    assert(after.take(ring.len() as int) == ring);
}

/// Nothing stale is heard: a drained ring gives no bytes until new ones are
/// captured.
pub proof fn law_drained_ring_gives_nothing(n: int)
    requires
        0 < n,
    ensures
        ring_read(Seq::empty(), n) == (None::<Seq<u8>>, Seq::<u8>::empty()),
{
}

/// A sample that clips sits at an end of the range; any other passes unchanged.
pub proof fn law_clipping_saturates(scaled: i32)
    ensures
        clips(scaled) <==> clipped(scaled) == i16::MAX || clipped(scaled) == i16::MIN,
        !clips(scaled) ==> clipped(scaled) == scaled,
{
}

/// Nothing of a capture is lost while it fits beside what is buffered: the ring
/// is then the old bytes and all the new ones behind them. Otherwise it is full,
/// of the old bytes and the first of the new ones.
pub proof fn law_ring_takes_what_fits(ring: Seq<u8>, bytes: Seq<u8>)
    requires
        ring.len() <= 8192,
    ensures
        ring.len() + bytes.len() <= 8192 ==> ring_after(ring, bytes).len() == ring.len()
            + bytes.len(),
        ring.len() + bytes.len() > 8192 ==> ring_after(ring, bytes).len() == 8192,
        forall|i: int|
            0 <= i < ring.len() ==> #[trigger] ring_after(ring, bytes)[i] == ring[i],
        forall|i: int|
            ring.len() <= i < ring_after(ring, bytes).len() ==> #[trigger] ring_after(
                ring,
                bytes,
            )[i] == bytes[i - ring.len()],
{
}

/// Two captures in a row are as good as one of both: their bytes stand behind
/// each other.
pub proof fn law_captures_add_up(ring: Seq<u8>, first: Seq<i32>, second: Seq<i32>)
    requires
        ring.len() <= RING_CAPACITY,
    ensures
        ring_after(
            ring_after(ring, encode_samples(clipped_all(first))),
            encode_samples(clipped_all(second)),
        ) == ring_after(
            ring,
            encode_samples(clipped_all(first)) + encode_samples(clipped_all(second)),
        ),
        ring.len() + 2 * first.len() + 2 * second.len() <= 8192 ==> ring_after(
            ring_after(ring, encode_samples(clipped_all(first))),
            encode_samples(clipped_all(second)),
        ).len() == ring.len() + 2 * first.len() + 2 * second.len(),
{
    let a = encode_samples(clipped_all(first));
    let b = encode_samples(clipped_all(second));
    law_samples_round_trip(clipped_all(first));
    law_samples_round_trip(clipped_all(second));
    law_ring_takes_what_fits(ring, a);
    law_ring_takes_what_fits(ring_after(ring, a), b);
    law_ring_takes_what_fits(ring, a + b);
    let one = ring_after(ring_after(ring, a), b);
    let both = ring_after(ring, a + b);
    assert forall|i: int| 0 <= i < one.len() implies #[trigger] one[i] == both[i] by {
        if i < ring.len() {
            assert(ring_after(ring, a)[i] == ring[i]);
        } else if i < ring_after(ring, a).len() {
            assert(ring_after(ring, a)[i] == a[i - ring.len()]);
        }
    }
    assert(one =~= both);
}

/// A read takes the oldest bytes, exactly as many as asked for, and leaves the
/// others; or it takes none when there are fewer.
pub proof fn law_read_takes_the_oldest_bytes(ring: Seq<u8>, n: int)
    requires
        0 <= n,
    ensures
        ring.len() < n ==> ring_read(ring, n).0 is None && ring_read(ring, n).1 == ring,
        n <= ring.len() ==> {
            &&& ring_read(ring, n).0 matches Some(bytes) && bytes.len() == n && forall|i: int|
                0 <= i < n ==> #[trigger] bytes[i] == ring[i]
            &&& ring_read(ring, n).1.len() == ring.len() - n
            &&& forall|i: int|
                0 <= i < ring.len() - n ==> #[trigger] ring_read(ring, n).1[i] == ring[n + i]
        },
{
}

/// A scaled sample passes unchanged within the 16-bit range and stops at its
/// ends. It counts as clipped at an end and beyond.
pub proof fn law_samples_clip_at_the_ends(scaled: i32)
    ensures
        -32768 <= scaled <= 32767 ==> clipped(scaled) == scaled,
        scaled > 32767 ==> clipped(scaled) == 32767,
        scaled < -32768 ==> clipped(scaled) == -32768,
        clips(scaled) <==> scaled >= 32767 || scaled <= -32768,
{
}

/// A capture holds one clipped sample for each scaled one, in order.
pub proof fn law_each_sample_is_clipped(scaled: Seq<i32>)
    ensures
        clipped_all(scaled).len() == scaled.len(),
        forall|i: int|
            0 <= i < scaled.len() ==> #[trigger] clipped_all(scaled)[i] == clipped(scaled[i]),
        encode_samples(clipped_all(scaled)).len() == 2 * scaled.len(),
        forall|i: int|
            0 <= i < scaled.len() ==> clipped(#[trigger] scaled[i]) == sample_value(
                encode_samples(clipped_all(scaled))[2 * i],
                encode_samples(clipped_all(scaled))[2 * i + 1],
            ),
{
    law_samples_round_trip(clipped_all(scaled));
    assert forall|i: int| 0 <= i < scaled.len() implies clipped(#[trigger] scaled[i])
        == sample_value(
        encode_samples(clipped_all(scaled))[2 * i],
        encode_samples(clipped_all(scaled))[2 * i + 1],
    ) by {
        assert(clipped_all(scaled)[i] == clipped(scaled[i]));
    }
}

/// Clipped samples are counted one by one.
pub proof fn law_clips_are_counted_one_by_one(scaled: Seq<i32>, next: i32)
    ensures
        clip_count(Seq::empty()) == 0,
        clip_count(scaled.push(next)) == clip_count(scaled) + (if next >= 32767 || next <= -32768 {
            1nat
        } else {
            0nat
        }),
{
    assert(scaled.push(next).drop_last() =~= scaled);
}

/// The peak of a capture bounds every clipped sample and is reached by one of
/// them unless it is zero.
pub proof fn law_capture_peak_bounds_every_sample(scaled: Seq<i32>)
    ensures
        0 <= clipped_peak(scaled) <= 32768,
        forall|i: int|
            0 <= i < scaled.len() ==> -clipped_peak(scaled) <= clipped(#[trigger] scaled[i])
                <= clipped_peak(scaled),
        clipped_peak(scaled) == 0 || exists|i: int|
            0 <= i < scaled.len() && (clipped(#[trigger] scaled[i]) == clipped_peak(scaled)
                || clipped(scaled[i]) == -clipped_peak(scaled)),
    decreases scaled.len(),
{
    if scaled.len() > 0 {
        let front = scaled.drop_last();
        law_capture_peak_bounds_every_sample(front);
        assert forall|i: int| 0 <= i < scaled.len() implies -clipped_peak(scaled) <= clipped(
            #[trigger] scaled[i],
        ) <= clipped_peak(scaled) by {
            if i < front.len() {
                assert(front[i] == scaled[i]);
            }
        }
        if clipped_peak(scaled) != 0 {
            if clipped_peak(scaled) == clipped_peak(front) {
                let i = choose|i: int|
                    0 <= i < front.len() && (clipped(#[trigger] front[i]) == clipped_peak(front)
                        || clipped(front[i]) == -clipped_peak(front));
                assert(scaled[i] == front[i]);
            } else {
                let i = scaled.len() - 1;
                assert(clipped(scaled[i]) == clipped_peak(scaled) || clipped(scaled[i])
                    == -clipped_peak(scaled));
            }
        }
    }
}

/// A capture counts its clipped samples, raises the peak to its loudest sample,
/// and counts one overflow exactly when some of it did not fit.
pub proof fn law_captures_are_counted(ring: Seq<u8>, scaled: Seq<i32>, c: Counters)
    ensures
        ({
            let after = capture_counted(ring, scaled, c);
            &&& after.mic_clip_count == count_up(c.mic_clip_count, clip_count(scaled))
            &&& after.mic_peak_abs >= c.mic_peak_abs
            &&& after.mic_peak_abs >= clipped_peak(scaled)
            &&& after.mic_peak_abs == c.mic_peak_abs || after.mic_peak_abs == clipped_peak(scaled)
            &&& ring.len() + 2 * scaled.len() <= 8192 ==> after.mic_ring_overflows
                == c.mic_ring_overflows
            &&& ring.len() + 2 * scaled.len() > 8192 ==> after.mic_ring_overflows == count_up(
                c.mic_ring_overflows,
                1,
            )
            &&& after.dropped_sends == c.dropped_sends
            &&& after.i2s_write_errs == c.i2s_write_errs
            &&& after.decode_errs == c.decode_errs
            &&& after.frames_decoded_delta == c.frames_decoded_delta
            &&& after.pcm_peak_abs == c.pcm_peak_abs
        }),
{
    law_capture_peak_bounds_every_sample(scaled);
}

/// There is one sample for each whole slot: the signed 16-bit number of its two
/// upper bytes, low byte first.
pub proof fn law_slots_become_samples(raw: Seq<u8>, k: int)
    requires
        0 <= k < raw.len() / 4,
    ensures
        slot_samples(raw).len() == raw.len() / 4,
        -32768 <= slot_samples(raw)[k] <= 32767,
        slot_samples(raw)[k] == raw[4 * k + 2] + 256 * raw[4 * k + 3] || slot_samples(raw)[k]
            == raw[4 * k + 2] + 256 * raw[4 * k + 3] - 65536,
{
}

/// Capture runs at 16 kHz, 32 slots at a time, into a ring of 8 KiB, and starts
/// at 14 dB of gain.
pub proof fn law_capture_sizes()
    ensures
        SAMPLE_RATE_HZ == 16_000,
        SAMPLES_PER_READ == 32,
        RING_CAPACITY == 8192,
        DEFAULT_GAIN_MILLI_DB == 14_000,
{
}

} // verus!
