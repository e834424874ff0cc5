//! Pipeline counters and the once-a-second report of them.
//!
//! The tasks of the pipeline count what goes wrong. A logger takes the counts
//! once a second and clears them, so that each report speaks of one second.

use vstd::prelude::*;

verus! {

/// The heap is reported in one of this many seconds, if at all.
pub const HEAP_REPORT_SECS: u32 = 5;

/// What the pipeline has seen since the last report.
#[derive(Debug, Clone, Copy, PartialEq, Eq, Structural)]
pub struct Counters {
    /// Encoded frames that the decoder had no room for.
    pub dropped_sends: u32,
    /// Failed writes to the DAC.
    pub i2s_write_errs: u32,
    /// Failures of the decoder.
    pub decode_errs: u32,
    /// Frames decoded.
    pub frames_decoded_delta: u32,
    /// The largest magnitude of a decoded sample.
    pub pcm_peak_abs: u32,
    /// The largest magnitude of a captured sample.
    pub mic_peak_abs: u32,
    /// Captured samples that did not fit 16 bits.
    pub mic_clip_count: u32,
    /// Captures that the mic ring had no room for.
    pub mic_ring_overflows: u32,
}

/// `x` after `n` more events, counted modulo 2^32.
pub open spec fn count_up(x: u32, n: nat) -> u32 {
    ((x + n) % 0x1_0000_0000) as u32
}

/// The larger of a recorded peak and a new one.
pub open spec fn max_peak(recorded: u32, peak: u16) -> u32 {
    if peak > recorded {
        peak as u32
    } else {
        recorded
    }
}

/// Counting events one by one or all at once comes to the same.
pub proof fn law_count_up_adds(x: u32, m: nat, n: nat)
    ensures
        count_up(count_up(x, m), n) == count_up(x, m + n),
        count_up(x, 0) == x,
{
    let r = (x + m) % 0x1_0000_0000;
    let q = (x + m) / 0x1_0000_0000;
    assert(x + m == q * 0x1_0000_0000 + r);
    assert((r + n) % 0x1_0000_0000 == (x + m + n) % 0x1_0000_0000);
}

fn increment(x: u32) -> (r: u32)
    ensures
        r == count_up(x, 1),
{
    x.wrapping_add(1)
}

impl Counters {
    /// Counters with nothing counted.
    pub open spec fn cleared() -> Counters {
        Counters {
            dropped_sends: 0,
            i2s_write_errs: 0,
            decode_errs: 0,
            frames_decoded_delta: 0,
            pcm_peak_abs: 0,
            mic_peak_abs: 0,
            mic_clip_count: 0,
            mic_ring_overflows: 0,
        }
    }

    /// Nothing has been counted that a report would show.
    pub open spec fn healthy(self) -> bool {
        &&& self.dropped_sends == 0
        &&& self.i2s_write_errs == 0
        &&& self.decode_errs == 0
        &&& self.mic_clip_count == 0
        &&& self.mic_ring_overflows == 0
    }

    pub fn new() -> (r: Self)
        ensures
            r == Counters::cleared(),
    {
        Counters {
            dropped_sends: 0,
            i2s_write_errs: 0,
            decode_errs: 0,
            frames_decoded_delta: 0,
            pcm_peak_abs: 0,
            mic_peak_abs: 0,
            mic_clip_count: 0,
            mic_ring_overflows: 0,
        }
    }

    pub fn record_dropped_send(&mut self)
        ensures
            *final(self) == (Counters {
                dropped_sends: count_up(old(self).dropped_sends, 1),
                ..*old(self)
            }),
    {
        self.dropped_sends = increment(self.dropped_sends);
    }

    pub fn record_i2s_write_err(&mut self)
        ensures
            *final(self) == (Counters {
                i2s_write_errs: count_up(old(self).i2s_write_errs, 1),
                ..*old(self)
            }),
    {
        self.i2s_write_errs = increment(self.i2s_write_errs);
    }

    pub fn record_decode_err(&mut self)
        ensures
            *final(self) == (Counters {
                decode_errs: count_up(old(self).decode_errs, 1),
                ..*old(self)
            }),
    {
        self.decode_errs = increment(self.decode_errs);
    }

    pub fn record_frame_decoded(&mut self)
        ensures
            *final(self) == (Counters {
                frames_decoded_delta: count_up(old(self).frames_decoded_delta, 1),
                ..*old(self)
            }),
    {
        self.frames_decoded_delta = increment(self.frames_decoded_delta);
    }

    pub fn record_mic_clip(&mut self)
        ensures
            *final(self) == (Counters {
                mic_clip_count: count_up(old(self).mic_clip_count, 1),
                ..*old(self)
            }),
    {
        self.mic_clip_count = increment(self.mic_clip_count);
    }

    pub fn record_mic_ring_overflow(&mut self)
        ensures
            *final(self) == (Counters {
                mic_ring_overflows: count_up(old(self).mic_ring_overflows, 1),
                ..*old(self)
            }),
    {
        self.mic_ring_overflows = increment(self.mic_ring_overflows);
    }

    pub fn record_pcm_peak(&mut self, peak: u16)
        ensures
            *final(self) == (Counters {
                pcm_peak_abs: max_peak(old(self).pcm_peak_abs, peak),
                ..*old(self)
            }),
    {
        if peak as u32 > self.pcm_peak_abs {
            self.pcm_peak_abs = peak as u32;
        }
    }

    pub fn record_mic_peak(&mut self, peak: u16)
        ensures
            *final(self) == (Counters {
                mic_peak_abs: max_peak(old(self).mic_peak_abs, peak),
                ..*old(self)
            }),
    {
        if peak as u32 > self.mic_peak_abs {
            self.mic_peak_abs = peak as u32;
        }
    }
}

/// The line on the playback side.
#[derive(Debug, Clone, Copy, PartialEq, Eq, Structural)]
pub struct AudioReport {
    pub dropped_sends: u32,
    pub i2s_errs: u32,
    pub decode_errs: u32,
    pub decoded: u32,
}

/// The line on the capture side.
#[derive(Debug, Clone, Copy, PartialEq, Eq, Structural)]
pub struct MicReport {
    pub clip: u32,
    pub ring_overflow: u32,
}

/// What the logger writes at one tick.
#[derive(Debug, Clone, Copy, PartialEq, Eq, Structural)]
pub struct StatsReport {
    /// Whether the free heap is written too.
    pub heap: bool,
    pub audio: Option<AudioReport>,
    pub mic: Option<MicReport>,
}

/// The lines that the counters call for.
pub open spec fn audio_line(c: Counters) -> Option<AudioReport> {
    if c.dropped_sends != 0 || c.i2s_write_errs != 0 || c.decode_errs != 0 {
        Some(
            AudioReport {
                dropped_sends: c.dropped_sends,
                i2s_errs: c.i2s_write_errs,
                decode_errs: c.decode_errs,
                decoded: c.frames_decoded_delta,
            },
        )
    } else {
        None
    }
}

pub open spec fn mic_line(c: Counters) -> Option<MicReport> {
    if c.mic_clip_count != 0 || c.mic_ring_overflows != 0 {
        Some(MicReport { clip: c.mic_clip_count, ring_overflow: c.mic_ring_overflows })
    } else {
        None
    }
}

impl StatsReport {
    /// Nothing is written.
    pub open spec fn quiet(self) -> bool {
        !self.heap && self.audio is None && self.mic is None
    }
}

/// What the logger writes in a second. The heap is written only when something
/// was counted.
pub open spec fn report_at(tick: u32, c: Counters) -> StatsReport {
    StatsReport {
        heap: tick % HEAP_REPORT_SECS == 0 && c != Counters::cleared(),
        audio: audio_line(c),
        mic: mic_line(c),
    }
}

/// The logger: it counts the seconds.
#[derive(Debug, Clone, Copy, PartialEq, Eq, Structural)]
pub struct Stats {
    /// Seconds since start, modulo 2^32.
    pub tick: u32,
}

impl Stats {
    pub fn new() -> (r: Self)
        ensures
            r.tick == 0,
    {
        Stats { tick: 0 }
    }

    /// One second has passed: reports the counters and clears them. A line of
    /// counters is written only when one of its counts is not zero, and the
    /// heap, in its turn, only when any counter is not zero.
    pub fn report(&mut self, counters: &mut Counters) -> (r: StatsReport)
        ensures
            final(self).tick == count_up(old(self).tick, 1),
            r == report_at(final(self).tick, *old(counters)),
            *final(counters) == Counters::cleared(),
    {
        self.tick = increment(self.tick);
        let taken = *counters;
        *counters = Counters::new();
        let audio = if taken.dropped_sends != 0 || taken.i2s_write_errs != 0 || taken.decode_errs
            != 0 {
            Some(
                AudioReport {
                    dropped_sends: taken.dropped_sends,
                    i2s_errs: taken.i2s_write_errs,
                    decode_errs: taken.decode_errs,
                    decoded: taken.frames_decoded_delta,
                },
            )
        } else {
            None
        };
        let mic = if taken.mic_clip_count != 0 || taken.mic_ring_overflows != 0 {
            Some(MicReport { clip: taken.mic_clip_count, ring_overflow: taken.mic_ring_overflows })
        } else {
            None
        };
        let heap = self.tick % HEAP_REPORT_SECS == 0 && taken != Counters::new();
        StatsReport { heap, audio, mic }
    }
}

/// The log stays quiet. While nothing is counted, no line is written at any
/// tick. The lines of counters are left out exactly while the pipeline is
/// healthy, and then at most the heap is written, in its turn.
pub proof fn law_quiet_iff_healthy(tick: u32, c: Counters)
    ensures
        report_at(tick, Counters::cleared()).quiet(),
        c.healthy() <==> report_at(tick, c).audio is None && report_at(tick, c).mic is None,
        report_at(tick, c).quiet() <==> c.healthy() && (tick % HEAP_REPORT_SECS != 0 || c
            == Counters::cleared()),
        Counters::cleared().healthy(),
{
}

/// A count goes up by one with each event and starts over at 2^32.
pub proof fn law_counts_go_up_by_one(x: u32, n: nat)
    ensures
        x < u32::MAX ==> count_up(x, 1) == x + 1,
        count_up(u32::MAX, 1) == 0,
        x + n <= u32::MAX ==> count_up(x, n) == x + n,
{
}

/// A recorded peak is the larger of the two, and never falls.
pub proof fn law_peaks_only_rise(recorded: u32, peak: u16)
    ensures
        max_peak(recorded, peak) >= recorded,
        max_peak(recorded, peak) >= peak,
        max_peak(recorded, peak) == recorded || max_peak(recorded, peak) == peak,
{
}

/// The playback line comes exactly when something was dropped or failed, and
/// shows these counts with the decoded frames. The capture line comes exactly
/// when something clipped or overflowed, and shows these counts.
pub proof fn law_lines_show_their_counts(tick: u32, c: Counters)
    ensures
        report_at(tick, c).audio is Some <==> c.dropped_sends != 0 || c.i2s_write_errs != 0
            || c.decode_errs != 0,
        report_at(tick, c).audio matches Some(line) ==> {
            &&& line.dropped_sends == c.dropped_sends
            &&& line.i2s_errs == c.i2s_write_errs
            &&& line.decode_errs == c.decode_errs
            &&& line.decoded == c.frames_decoded_delta
        },
        report_at(tick, c).mic is Some <==> c.mic_clip_count != 0 || c.mic_ring_overflows != 0,
        report_at(tick, c).mic matches Some(line) ==> {
            &&& line.clip == c.mic_clip_count
            &&& line.ring_overflow == c.mic_ring_overflows
        },
{
}

/// The heap is written in every fifth second in which any counter is not zero,
/// and in no other.
pub proof fn law_heap_comes_every_fifth_second(tick: u32, c: Counters)
    ensures
        report_at(tick, c).heap <==> tick % 5 == 0 && (c.dropped_sends != 0 || c.i2s_write_errs != 0
            || c.decode_errs != 0 || c.frames_decoded_delta != 0 || c.pcm_peak_abs != 0
            || c.mic_peak_abs != 0 || c.mic_clip_count != 0 || c.mic_ring_overflows != 0),
{
}

/// Cleared counters are all zero.
pub proof fn law_cleared_counters_are_zero()
    ensures
        Counters::cleared().dropped_sends == 0,
        Counters::cleared().i2s_write_errs == 0,
        Counters::cleared().decode_errs == 0,
        Counters::cleared().frames_decoded_delta == 0,
        Counters::cleared().pcm_peak_abs == 0,
        Counters::cleared().mic_peak_abs == 0,
        Counters::cleared().mic_clip_count == 0,
        Counters::cleared().mic_ring_overflows == 0,
{
}

} // verus!
