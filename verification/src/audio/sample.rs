//! 16-bit little-endian samples.

use vstd::prelude::*;

verus! {

/// The 16-bit two's-complement value of a low and a high byte.
pub open spec fn sample_value(lo: u8, hi: u8) -> int {
    let unsigned = lo + 256 * hi;
    if unsigned < 32768 {
        unsigned
    } else {
        unsigned - 65536
    }
}

/// The low and the high byte of a sample.
pub open spec fn sample_bytes(sample: i16) -> Seq<u8> {
    let unsigned = if sample < 0 {
        sample + 65536
    } else {
        sample as int
    };
    seq![(unsigned % 256) as u8, (unsigned / 256) as u8]
}

/// The samples one after the other, two bytes each.
pub open spec fn encode_samples(samples: Seq<i16>) -> Seq<u8>
    decreases samples.len(),
{
    if samples.len() == 0 {
        Seq::empty()
    } else {
        encode_samples(samples.drop_last()) + sample_bytes(samples.last())
    }
}

pub open spec fn magnitude(value: int) -> int {
    if value < 0 {
        -value
    } else {
        value
    }
}

/// The largest magnitude among the first `n` samples of `pcm`.
pub open spec fn peak_of(pcm: Seq<u8>, n: int) -> int
    decreases n,
{
    if n <= 0 {
        0
    } else {
        let before = peak_of(pcm, n - 1);
        let here = magnitude(sample_value(pcm[2 * (n - 1)], pcm[2 * (n - 1) + 1]));
        if here > before {
            here
        } else {
            before
        }
    }
}

/// The largest magnitude among the whole samples of `pcm`. A trailing odd byte
/// is no sample.
pub open spec fn pcm_peak(pcm: Seq<u8>) -> int {
    peak_of(pcm, pcm.len() as int / 2)
}

pub fn sample_from_le(lo: u8, hi: u8) -> (r: i16)
    ensures
        r == sample_value(lo, hi),
{
    let unsigned: i32 = lo as i32 + 256 * hi as i32;
    if unsigned < 32768 {
        unsigned as i16
    } else {
        (unsigned - 65536) as i16
    }
}

pub fn sample_to_le(sample: i16) -> (r: (u8, u8))
    ensures
        seq![r.0, r.1] == sample_bytes(sample),
{
    let unsigned: i32 = if sample < 0 {
        sample as i32 + 65536
    } else {
        sample as i32
    };
    ((unsigned % 256) as u8, (unsigned / 256) as u8)
}

pub fn sample_magnitude(sample: i16) -> (r: u16)
    ensures
        r == magnitude(sample as int),
{
    if sample < 0 {
        (-(sample as i32)) as u16
    } else {
        sample as u16
    }
}

/// The largest magnitude among the samples in the first `len` bytes of `pcm`.
pub fn measure_peak(pcm: &Vec<u8>, len: usize) -> (r: u16)
    requires
        len <= pcm@.len(),
    ensures
        r == pcm_peak(pcm@.take(len as int)),
{
    let ghost part = pcm@.take(len as int);
    let n: usize = len / 2;
    let mut peak: u16 = 0;
    let mut k: usize = 0;
    while k < n
        invariant
            k <= n,
            n == len / 2,
            len <= pcm@.len(),
            part == pcm@.take(len as int),
            peak == peak_of(part, k as int),
        decreases n - k,
    {
        let magnitude = sample_magnitude(sample_from_le(pcm[2 * k], pcm[2 * k + 1]));
        if magnitude > peak {
            peak = magnitude;
        }
        k = k + 1;
    }
    peak
}

/// A sample comes back from its two bytes.
pub proof fn law_sample_round_trip(sample: i16)
    ensures
        sample_bytes(sample).len() == 2,
        sample_value(sample_bytes(sample)[0], sample_bytes(sample)[1]) == sample,
{
}

/// A run of samples is twice as many bytes, and each sample comes back from
/// its own two.
pub proof fn law_samples_round_trip(samples: Seq<i16>)
    ensures
        encode_samples(samples).len() == 2 * samples.len(),
        forall|k: int|
            0 <= k < samples.len() ==> #[trigger] samples[k] == sample_value(
                encode_samples(samples)[2 * k],
                encode_samples(samples)[2 * k + 1],
            ),
    decreases samples.len(),
{
    if samples.len() > 0 {
        let front = samples.drop_last();
        law_samples_round_trip(front);
        law_sample_round_trip(samples.last());
        assert forall|k: int| 0 <= k < samples.len() implies #[trigger] samples[k] == sample_value(
            encode_samples(samples)[2 * k],
            encode_samples(samples)[2 * k + 1],
        ) by {
            if k < front.len() {
                assert(samples[k] == front[k]);
            }
        }
    }
}

/// No sample is louder than the peak, and the peak is the magnitude of one of
/// them unless it is zero.
pub proof fn law_peak_is_the_maximum(pcm: Seq<u8>, n: int)
    requires
        0 <= n,
        2 * n <= pcm.len(),
    ensures
        forall|k: int|
            0 <= k < n ==> magnitude(#[trigger] sample_value(pcm[2 * k], pcm[2 * k + 1])) <= peak_of(
                pcm,
                n,
            ),
        peak_of(pcm, n) == 0 || exists|k: int|
            0 <= k < n && magnitude(#[trigger] sample_value(pcm[2 * k], pcm[2 * k + 1])) == peak_of(
                pcm,
                n,
            ),
    decreases n,
{
    if n > 0 {
        law_peak_is_the_maximum(pcm, n - 1);
        let here = sample_value(pcm[2 * (n - 1)], pcm[2 * (n - 1) + 1]);
        if magnitude(here) <= peak_of(pcm, n - 1) && peak_of(pcm, n - 1) != 0 {
            let k = choose|k: int|
                0 <= k < n - 1 && magnitude(#[trigger] sample_value(pcm[2 * k], pcm[2 * k + 1]))
                    == peak_of(pcm, n - 1);
            assert(magnitude(sample_value(pcm[2 * k], pcm[2 * k + 1])) == peak_of(pcm, n));
        }
    }
}

/// Samples are 16-bit two's complement, low byte first: a sample and the number
/// that its bytes make up differ by a multiple of 65536.
pub proof fn law_samples_are_little_endian(lo: u8, hi: u8, sample: i16)
    ensures
        -32768 <= sample_value(lo, hi) <= 32767,
        sample_value(lo, hi) == lo + 256 * hi || sample_value(lo, hi) == lo + 256 * hi - 65536,
        sample_bytes(sample).len() == 2,
        sample_bytes(sample)[0] + 256 * sample_bytes(sample)[1] == sample || sample_bytes(
            sample,
        )[0] + 256 * sample_bytes(sample)[1] == sample + 65536,
{
}

/// A magnitude is the value without its sign.
pub proof fn law_magnitude_drops_the_sign(value: int)
    ensures
        0 <= value ==> magnitude(value) == value,
        value <= 0 ==> magnitude(value) == -value,
{
}

/// A run of samples is encoded sample by sample: appending one appends its two
/// bytes, and leaves what is before.
pub proof fn law_samples_are_encoded_one_by_one(samples: Seq<i16>, next: i16)
    ensures
        encode_samples(Seq::empty()) == Seq::<u8>::empty(),
        encode_samples(samples.push(next)) == encode_samples(samples) + sample_bytes(next),
{
    assert(samples.push(next).drop_last() =~= samples);
}

/// The peak of PCM bounds every whole sample, and is reached by one of them
/// unless it is zero.
pub proof fn law_pcm_peak_bounds_every_sample(pcm: Seq<u8>)
    ensures
        0 <= pcm_peak(pcm) <= 32768,
        forall|k: int|
            0 <= k < pcm.len() / 2 ==> -pcm_peak(pcm) <= #[trigger] sample_value(
                pcm[2 * k],
                pcm[2 * k + 1],
            ) <= pcm_peak(pcm),
        pcm_peak(pcm) == 0 || exists|k: int|
            0 <= k < pcm.len() / 2 && (#[trigger] sample_value(pcm[2 * k], pcm[2 * k + 1])
                == pcm_peak(pcm) || sample_value(pcm[2 * k], pcm[2 * k + 1]) == -pcm_peak(pcm)),
{
    let n = pcm.len() as int / 2;
    law_peak_is_the_maximum(pcm, n);
    if pcm_peak(pcm) != 0 {
        let k = choose|k: int|
            0 <= k < n && magnitude(#[trigger] sample_value(pcm[2 * k], pcm[2 * k + 1])) == peak_of(
                pcm,
                n,
            );
        assert(sample_value(pcm[2 * k], pcm[2 * k + 1]) == pcm_peak(pcm) || sample_value(
            pcm[2 * k],
            pcm[2 * k + 1],
        ) == -pcm_peak(pcm));
    }
}

} // verus!
