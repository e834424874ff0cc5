//! The LED strip.
//!
//! The lowest bins of the spectrum light one LED each: green up to full
//! brightness, then red besides. Colours are gamma-corrected. The strip is
//! driven over SPI: each bit of a colour is one byte on the bus, a short or a
//! long pulse.

use rtrb::{Consumer, Producer};
use vstd::prelude::*;

use crate::fft_analysis::round_up_kib;
use crate::gamma::GAMMA;
use crate::led_ring::{new_led_ring, pop_frame, push_frame};

verus! {

use crate::fft_analysis::whole_kib;
use crate::led_ring::{
    led_input_capacity,
    led_input_count,
    led_input_read,
    led_input_stream,
    led_output_count,
    led_output_stream,
    led_output_written,
    stream_start,
    words,
};

/// LEDs on the strip.
pub const LED_COUNT: usize = 20;

/// Frames that can wait for the strip.
pub const FRAME_RING_SIZE: usize = 4;

/// Bus bytes per LED: one for each bit of its colour.
pub const WS_BYTES: usize = 24;

/// Zero bytes that end a frame: the pause that makes the strip show it.
pub const RESET_BYTES: usize = 260;

/// Bits per second on the bus.
pub const BUS_BAUD: u32 = 6_400_000;

/// Pause between two looks for a frame.
pub const FRAME_INTERVAL_MS: u32 = 1000;

/// Stack of the strip's task beside a frame.
pub const STACK_BASE: usize = 4096;

/// Bus byte of a 0 bit: a pulse of two bus bits.
pub const SHORT_PULSE: u8 = 0xC0;

/// Bus byte of a 1 bit: a pulse of six bus bits.
pub const LONG_PULSE: u8 = 0xFC;

/// A colour: 0xRRGGBB00.
#[derive(Debug, Clone, Copy, PartialEq, Eq, Structural)]
pub struct RGB8(pub u32);

/// The gamma-corrected colour word of three levels.
pub open spec fn colour_word(r: int, g: int, b: int) -> int {
    GAMMA@[r] * 0x100_0000 + GAMMA@[g] * 0x1_0000 + GAMMA@[b] * 0x100
}

/// Bit `k` of a word, counted from the lowest.
pub open spec fn bit(word: u32, k: int) -> bool {
    (word >> (k as u32)) & 1 == 1
}

/// The bus byte of a bit.
pub open spec fn pulse(set: bool) -> u8 {
    if set {
        LONG_PULSE
    } else {
        SHORT_PULSE
    }
}

/// The bus bytes of a colour word: its 24 upper bits, the lowest of them first.
pub open spec fn ws_bytes(word: u32) -> Seq<u8> {
    Seq::new(WS_BYTES as nat, |i: int| pulse(bit(word, 8 + i)))
}

/// The green level of an amplitude: the amplitude itself, up to 255.
pub open spec fn green_level(amplitude: u32) -> int {
    if amplitude < 255 {
        amplitude as int
    } else {
        255
    }
}

/// The red level of an amplitude: what it has above 255, up to 255.
pub open spec fn red_level(amplitude: u32) -> int {
    if amplitude < 255 {
        0
    } else if amplitude < 510 {
        amplitude - 255
    } else {
        255
    }
}

/// The colour words that amplitudes light the strip in.
pub open spec fn lit(amplitudes: Seq<u32>) -> Seq<u32> {
    Seq::new(
        LED_COUNT as nat,
        |i: int| colour_word(red_level(amplitudes[i]), green_level(amplitudes[i]), 0) as u32,
    )
}

/// The bus bytes of a frame: those of each colour, then the pause.
pub open spec fn frame_bytes(frame: Seq<u32>) -> Seq<u8> {
    Seq::new(
        (WS_BYTES * frame.len() + RESET_BYTES) as nat,
        |i: int|
            if i < WS_BYTES * frame.len() {
                ws_bytes(frame[i / 24])[i % 24]
            } else {
                0u8
            },
    )
}

impl RGB8 {
    /// The colour of three levels, which are then gamma-corrected.
    pub fn uncorrected_rgb(r: usize, g: usize, b: usize) -> (colour: Self)
        requires
            r < 256,
            g < 256,
            b < 256,
        ensures
            colour.0 == colour_word(r as int, g as int, b as int),
    {
        RGB8(
            GAMMA[r] as u32 * 0x100_0000 + GAMMA[g] as u32 * 0x1_0000 + GAMMA[b] as u32 * 0x100,
        )
    }

    /// The colour's bytes on the bus.
    pub fn to_ws_bytes(self) -> (out: [u8; WS_BYTES])
        ensures
            out@ == ws_bytes(self.0),
    {
        let mut out = [0u8; WS_BYTES];
        let mut i: usize = 0;
        while i < WS_BYTES
            invariant
                i <= WS_BYTES,
                out@.len() == WS_BYTES,
                forall|j: int| 0 <= j < i ==> #[trigger] out@[j] == ws_bytes(self.0)[j],
            decreases WS_BYTES - i,
        {
            let set = (self.0 >> (8 + i as u32)) & 1 == 1;
            out[i] = if set {
                LONG_PULSE
            } else {
                SHORT_PULSE
            };
            i = i + 1;
        }
        assert(out@ =~= ws_bytes(self.0));
        out
    }
}

/// The writing end: takes amplitudes.
pub struct LEDOutput {
    tx: Producer<[RGB8; LED_COUNT]>,
}

/// The reading end: gives frames.
pub struct FrameReader {
    rx: Consumer<[RGB8; LED_COUNT]>,
}

/// The colour that an amplitude lights a LED in.
pub fn amplitude_colour(amplitude: u32) -> (colour: RGB8)
    ensures
        colour.0 == colour_word(red_level(amplitude), green_level(amplitude), 0),
{
    let green: usize = if amplitude < 255 {
        amplitude as usize
    } else {
        255
    };
    let red: usize = if amplitude < 255 {
        0
    } else if amplitude < 510 {
        (amplitude - 255) as usize
    } else {
        255
    };
    RGB8::uncorrected_rgb(red, green, 0)
}

impl LEDOutput {
    /// Every frame that the ring carries, by position.
    pub closed spec fn stream(self) -> Map<int, Seq<u32>> {
        led_input_stream(self.tx)
    }

    /// How many frames have been taken.
    pub closed spec fn count(self) -> nat {
        led_input_count(self.tx)
    }

    /// How many frames the ring can hold.
    pub closed spec fn capacity(self) -> nat {
        led_input_capacity(self.tx)
    }

    /// How many of the frames taken the strip's task had read when the ring was
    /// last looked at.
    pub closed spec fn read(self) -> nat {
        led_input_read(self.tx)
    }

    /// The frames taken so far.
    pub open spec fn sent(self) -> Seq<Seq<u32>> {
        stream_start(self.stream(), self.count())
    }

    /// The two ends of a new ring.
    pub fn channel() -> (ends: (LEDOutput, FrameReader))
        ensures
            ends.0.stream() == ends.1.stream(),
            ends.0.count() == 0,
            ends.1.count() == 0,
            ends.0.capacity() == FRAME_RING_SIZE,
            ends.0.read() == 0,
            ends.1.written() == 0,
    {
        let (tx, rx) = new_led_ring(FRAME_RING_SIZE);
        (LEDOutput { tx }, FrameReader { rx })
    }

    /// Lights the strip by the first amplitudes of `buf`, one for each LED, or
    /// drops the frame, exactly when the ring is full of frames that are not
    /// read yet. How many are read by then is up to the reader.
    pub fn send_amplitudes(&mut self, buf: &[u32]) -> (r: Result<(), ()>)
        requires
            buf@.len() >= LED_COUNT,
        ensures
            final(self).stream() == old(self).stream(),
            final(self).capacity() == old(self).capacity(),
            r is Ok ==> {
                &&& final(self).count() == old(self).count() + 1
                &&& final(self).sent() == old(self).sent().push(lit(buf@))
            },
            r is Err ==> {
                &&& final(self).count() == old(self).count()
                &&& final(self).sent() == old(self).sent()
            },
            old(self).read() <= final(self).read() <= old(self).count(),
            r is Ok <==> old(self).count() < final(self).read() + old(self).capacity(),
            r is Err <==> old(self).count() == final(self).read() + old(self).capacity(),
    {
        let mut frame = [RGB8(0); LED_COUNT];
        let mut i: usize = 0;
        while i < LED_COUNT
            invariant
                i <= LED_COUNT,
                frame@.len() == LED_COUNT,
                buf@.len() >= LED_COUNT,
                forall|j: int| 0 <= j < i ==> (#[trigger] frame@[j]).0 == lit(buf@)[j],
            decreases LED_COUNT - i,
        {
            frame[i] = amplitude_colour(buf[i]);
            i = i + 1;
        }
        assert(words(frame) =~= lit(buf@));
        let r = push_frame(&mut self.tx, frame);
        assert(r is Ok ==> self.sent() =~= old(self).sent().push(lit(buf@)));
        r
    }

    /// The bytes that show a frame.
    pub fn encode_frame(frame: &[RGB8; LED_COUNT]) -> (out: Vec<u8>)
        ensures
            out@ == frame_bytes(words(*frame)),
    {
        let mut out: Vec<u8> = Vec::new();
        let mut led: usize = 0;
        while led < LED_COUNT
            invariant
                led <= LED_COUNT,
                out@.len() == WS_BYTES * led,
                forall|i: int|
                    0 <= i < WS_BYTES * led ==> #[trigger] out@[i] == frame_bytes(words(*frame))[i],
            decreases LED_COUNT - led,
        {
            let bytes = frame[led].to_ws_bytes();
            let mut k: usize = 0;
            while k < WS_BYTES
                invariant
                    k <= WS_BYTES,
                    led < LED_COUNT,
                    bytes@ == ws_bytes(frame@[led as int].0),
                    out@.len() == WS_BYTES * led + k,
                    forall|i: int|
                        0 <= i < WS_BYTES * led + k ==> #[trigger] out@[i] == frame_bytes(
                            words(*frame),
                        )[i],
                decreases WS_BYTES - k,
            {
                out.push(bytes[k]);
                k = k + 1;
            }
            led = led + 1;
        }
        let mut pause: usize = 0;
        while pause < RESET_BYTES
            invariant
                pause <= RESET_BYTES,
                out@.len() == WS_BYTES * LED_COUNT + pause,
                forall|i: int|
                    0 <= i < WS_BYTES * LED_COUNT + pause ==> #[trigger] out@[i] == frame_bytes(
                        words(*frame),
                    )[i],
            decreases RESET_BYTES - pause,
        {
            out.push(0);
            pause = pause + 1;
        }
        assert(out@ =~= frame_bytes(words(*frame)));
        out
    }

    /// Stack of the strip's task: a frame of 4 bytes for each LED and room
    /// besides, in whole KiB.
    pub fn stack_size() -> (r: usize)
        ensures
            r == whole_kib(STACK_BASE + 4 * LED_COUNT),
    {
        round_up_kib(STACK_BASE + 4 * LED_COUNT)
    }
}

impl FrameReader {
    /// Every frame that the ring carries, by position.
    pub closed spec fn stream(self) -> Map<int, Seq<u32>> {
        led_output_stream(self.rx)
    }

    /// How many frames have been given.
    pub closed spec fn count(self) -> nat {
        led_output_count(self.rx)
    }

    /// How many frames had been written when the ring was last looked at.
    pub closed spec fn written(self) -> nat {
        led_output_written(self.rx)
    }

    /// The frames given so far.
    pub open spec fn received(self) -> Seq<Seq<u32>> {
        stream_start(self.stream(), self.count())
    }

    /// The bytes that show the next frame, exactly when one has been written.
    /// Whether one has is up to the writer.
    pub fn next_frame(&mut self) -> (r: Option<Vec<u8>>)
        ensures
            final(self).stream() == old(self).stream(),
            old(self).written() <= final(self).written(),
            r is Some <==> old(self).count() < final(self).written(),
            match r {
                Some(bytes) => {
                    &&& final(self).count() == old(self).count() + 1
                    &&& old(self).stream()[old(self).count() as int].len() == LED_COUNT
                    &&& bytes@ == frame_bytes(old(self).stream()[old(self).count() as int])
                },
                None => final(self).count() == old(self).count(),
            },
    {
        let popped = pop_frame(&mut self.rx);
        FrameReader::bytes_from(popped)
    }

    /// What the strip's task gets for the ring's answer: the bytes that show
    /// the frame, none while there is no frame.
    pub fn bytes_from(popped: Option<[RGB8; LED_COUNT]>) -> (r: Option<Vec<u8>>)
        ensures
            match popped {
                Some(frame) => r matches Some(bytes) && bytes@ == frame_bytes(words(frame)),
                None => r is None,
            },
    {
        match popped {
            Some(frame) => Some(LEDOutput::encode_frame(&frame)),
            None => None,
        }
    }
}

/// What the strip shows is what was sent: the frames of a ring are those that
/// went in, in order, with none lost and none repeated. The writing end is
/// looked at no earlier than the reading end, so that it has taken at least
/// what the other has given.
pub proof fn law_strip_shows_the_frames(output: LEDOutput, reader: FrameReader)
    requires
        output.stream() == reader.stream(),
        reader.received().len() <= output.sent().len(),
    ensures
        reader.received() == output.sent().take(reader.received().len() as int),
{
    assert(reader.received() =~= output.sent().take(reader.received().len() as int));
}

/// Two colours have the same bytes on the bus only if they are the same colour.
pub proof fn law_bus_bytes_tell_colours_apart(v: u32, w: u32)
    requires
        ws_bytes(v) == ws_bytes(w),
    ensures
        v >> 8 == w >> 8,
{
    lemma_same_bit(v, w, 0);
    lemma_same_bit(v, w, 1);
    lemma_same_bit(v, w, 2);
    lemma_same_bit(v, w, 3);
    lemma_same_bit(v, w, 4);
    lemma_same_bit(v, w, 5);
    lemma_same_bit(v, w, 6);
    lemma_same_bit(v, w, 7);
    lemma_same_bit(v, w, 8);
    lemma_same_bit(v, w, 9);
    lemma_same_bit(v, w, 10);
    lemma_same_bit(v, w, 11);
    lemma_same_bit(v, w, 12);
    lemma_same_bit(v, w, 13);
    lemma_same_bit(v, w, 14);
    lemma_same_bit(v, w, 15);
    lemma_same_bit(v, w, 16);
    lemma_same_bit(v, w, 17);
    lemma_same_bit(v, w, 18);
    lemma_same_bit(v, w, 19);
    lemma_same_bit(v, w, 20);
    lemma_same_bit(v, w, 21);
    lemma_same_bit(v, w, 22);
    lemma_same_bit(v, w, 23);
    assert(v >> 8 == w >> 8) by (bit_vector)
        requires
            ((v >> 8u32) & 1 == 1) == ((w >> 8u32) & 1 == 1),
            ((v >> 9u32) & 1 == 1) == ((w >> 9u32) & 1 == 1),
            ((v >> 10u32) & 1 == 1) == ((w >> 10u32) & 1 == 1),
            ((v >> 11u32) & 1 == 1) == ((w >> 11u32) & 1 == 1),
            ((v >> 12u32) & 1 == 1) == ((w >> 12u32) & 1 == 1),
            ((v >> 13u32) & 1 == 1) == ((w >> 13u32) & 1 == 1),
            ((v >> 14u32) & 1 == 1) == ((w >> 14u32) & 1 == 1),
            ((v >> 15u32) & 1 == 1) == ((w >> 15u32) & 1 == 1),
            ((v >> 16u32) & 1 == 1) == ((w >> 16u32) & 1 == 1),
            ((v >> 17u32) & 1 == 1) == ((w >> 17u32) & 1 == 1),
            ((v >> 18u32) & 1 == 1) == ((w >> 18u32) & 1 == 1),
            ((v >> 19u32) & 1 == 1) == ((w >> 19u32) & 1 == 1),
            ((v >> 20u32) & 1 == 1) == ((w >> 20u32) & 1 == 1),
            ((v >> 21u32) & 1 == 1) == ((w >> 21u32) & 1 == 1),
            ((v >> 22u32) & 1 == 1) == ((w >> 22u32) & 1 == 1),
            ((v >> 23u32) & 1 == 1) == ((w >> 23u32) & 1 == 1),
            ((v >> 24u32) & 1 == 1) == ((w >> 24u32) & 1 == 1),
            ((v >> 25u32) & 1 == 1) == ((w >> 25u32) & 1 == 1),
            ((v >> 26u32) & 1 == 1) == ((w >> 26u32) & 1 == 1),
            ((v >> 27u32) & 1 == 1) == ((w >> 27u32) & 1 == 1),
            ((v >> 28u32) & 1 == 1) == ((w >> 28u32) & 1 == 1),
            ((v >> 29u32) & 1 == 1) == ((w >> 29u32) & 1 == 1),
            ((v >> 30u32) & 1 == 1) == ((w >> 30u32) & 1 == 1),
            ((v >> 31u32) & 1 == 1) == ((w >> 31u32) & 1 == 1),
    ;
}

proof fn lemma_same_bit(v: u32, w: u32, i: int)
    requires
        0 <= i < WS_BYTES,
        ws_bytes(v) == ws_bytes(w),
    ensures
        bit(v, 8 + i) == bit(w, 8 + i),
{
    assert(ws_bytes(v)[i] == pulse(bit(v, 8 + i)));
    assert(ws_bytes(w)[i] == pulse(bit(w, 8 + i)));
}

/// A louder bin is never shown darker, in either colour.
pub proof fn law_brightness_follows_amplitude(quiet: u32, loud: u32)
    requires
        quiet <= loud,
    ensures
        GAMMA@[green_level(quiet)] <= GAMMA@[green_level(loud)],
        GAMMA@[red_level(quiet)] <= GAMMA@[red_level(loud)],
{
    crate::gamma::law_table_never_decreases(green_level(quiet), green_level(loud));
    crate::gamma::law_table_never_decreases(red_level(quiet), red_level(loud));
}

/// LED by LED, a frame shows its own amplitude and no other: green is the
/// gamma-corrected amplitude up to 255, red what it has above that, and blue is
/// dark.
pub proof fn law_each_led_shows_its_amplitude(amplitudes: Seq<u32>, others: Seq<u32>, i: int)
    requires
        0 <= i < 20,
    ensures
        lit(amplitudes).len() == 20,
        ({
            let a = amplitudes[i] as int;
            let green = if a < 255 {
                a
            } else {
                255
            };
            let red = if a < 255 {
                0
            } else if a < 510 {
                a - 255
            } else {
                255
            };
            &&& lit(amplitudes)[i] / 0x100_0000 == GAMMA@[red]
            &&& lit(amplitudes)[i] / 0x1_0000 % 0x100 == GAMMA@[green]
            &&& lit(amplitudes)[i] % 0x1_0000 == GAMMA@[0] * 0x100
        }),
        amplitudes[i] == others[i] ==> lit(amplitudes)[i] == lit(others)[i],
{
}

/// An LED is dark without amplitude, full green at 255, and full green and red
/// from 510 on.
pub proof fn law_led_goes_from_dark_to_full(amplitudes: Seq<u32>, i: int)
    requires
        0 <= i < 20,
    ensures
        amplitudes[i] == 0 ==> lit(amplitudes)[i] == 0,
        amplitudes[i] == 255 ==> lit(amplitudes)[i] == 0x00FF_0000,
        amplitudes[i] >= 510 ==> lit(amplitudes)[i] == 0xFFFF_0000,
{
    assert(GAMMA@[0] == 0);
    assert(GAMMA@[255] == 255);
}

/// A colour word holds the corrected red, green and blue, from the highest byte
/// down, and nothing in the lowest.
pub proof fn law_colour_word_holds_three_levels(r: int, g: int, b: int)
    requires
        0 <= r < 256,
        0 <= g < 256,
        0 <= b < 256,
    ensures
        0 <= colour_word(r, g, b) <= u32::MAX,
        colour_word(r, g, b) / 0x100_0000 == GAMMA@[r],
        colour_word(r, g, b) / 0x1_0000 % 0x100 == GAMMA@[g],
        colour_word(r, g, b) / 0x100 % 0x100 == GAMMA@[b],
        colour_word(r, g, b) % 0x100 == 0,
{
}

/// The levels of an amplitude: green follows it up to 255, red what is above, up
/// to 255.
pub proof fn law_levels_follow_the_amplitude(amplitude: u32)
    ensures
        amplitude <= 255 ==> green_level(amplitude) == amplitude && red_level(amplitude) == 0,
        255 <= amplitude <= 510 ==> green_level(amplitude) == 255 && red_level(amplitude)
            == amplitude - 255,
        510 <= amplitude ==> green_level(amplitude) == 255 && red_level(amplitude) == 255,
{
}

/// A colour is 24 bytes on the bus, one for each bit above the lowest eight,
/// lowest first: six bus bits high for a 1, two for a 0.
pub proof fn law_each_bit_is_a_pulse(word: u32, i: int)
    requires
        0 <= i < 24,
    ensures
        ws_bytes(word).len() == 24,
        ws_bytes(word)[i] == (if (word >> ((8 + i) as u32)) & 1 == 1 {
            0xFCu8
        } else {
            0xC0u8
        }),
{
}

/// On the bus, the bytes of each colour follow those of the one before, and 260
/// zero bytes end the frame.
pub proof fn law_frame_is_its_colours_and_a_pause(frame: Seq<u32>)
    ensures
        frame_bytes(frame).len() == 24 * frame.len() + 260,
        forall|led: int, k: int|
            0 <= led < frame.len() && 0 <= k < 24 ==> frame_bytes(frame)[24 * led + k]
                == #[trigger] ws_bytes(frame[led])[k],
        forall|i: int|
            24 * frame.len() <= i < 24 * frame.len() + 260 ==> #[trigger] frame_bytes(frame)[i]
                == 0,
{
}

/// What has been sent and what has been received are the first frames of the
/// ring, by position.
pub proof fn law_ends_count_along_the_frames(output: LEDOutput, reader: FrameReader)
    ensures
        output.sent().len() == output.count(),
        forall|i: int|
            0 <= i < output.count() ==> #[trigger] output.sent()[i] == output.stream()[i],
        reader.received().len() == reader.count(),
        forall|i: int|
            0 <= i < reader.count() ==> #[trigger] reader.received()[i] == reader.stream()[i],
{
}

/// The strip has 20 LEDs of 24 bus bytes each, and four frames can wait for it.
pub proof fn law_strip_sizes()
    ensures
        LED_COUNT == 20,
        WS_BYTES == 24,
        RESET_BYTES == 260,
        FRAME_RING_SIZE == 4,
{
}

} // verus!
