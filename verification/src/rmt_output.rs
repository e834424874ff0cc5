//! The LED strip over the remote-control peripheral.
//!
//! The peripheral sends symbols, each a level held for a time and then
//! another. A frame is a reset, then 24 symbols for each LED, highest bit
//! first. The peripheral asks for symbols as it gets room for them, so that a
//! frame is encoded in steps.

use vstd::prelude::*;

use crate::gamma::GAMMA;

verus! {

use crate::led_output::green_level;
use vstd::arithmetic::div_mod::{lemma_div_denominator, lemma_hoist_over_denominator};
use vstd::arithmetic::power2::{
    lemma2_to64,
    lemma_pow2_adds,
    lemma_pow2_pos,
    lemma_pow2_unfold,
    pow2,
};

/// LEDs on the strip.
pub const LED_COUNT: usize = 20;

/// Symbols per LED.
pub const WS_SYMBOLS: usize = 24;

/// Length of the shorter half of a bit.
pub const SHORT_NS: u32 = 320;

/// Length of the longer half of a bit.
pub const LONG_NS: u32 = 960;

/// Length of a reset.
pub const RESET_NS: u32 = 280_000;

/// Ticks per second of the peripheral: 160 ns each.
pub const RMT_RESOLUTION_HZ: u32 = 6_250_000;

/// Symbols that the peripheral's memory holds: those of a whole strip.
pub const MEMORY_BLOCK_SYMBOLS: usize = WS_SYMBOLS * LED_COUNT;

/// Frames that can wait for the peripheral.
pub const QUEUE_DEPTH: usize = 4;

/// Room that the peripheral must offer for a step to get on: one LED.
pub const MIN_CHUNK_SIZE: usize = WS_SYMBOLS;

/// What the peripheral sends.
#[derive(Debug, Clone, Copy, PartialEq, Eq, Structural)]
pub enum Symbol {
    /// High, then low.
    Pulse { high_ns: u32, low_ns: u32 },
    /// Low throughout.
    Gap { ns: u32 },
}

/// The symbol of a bit: the longer half is high for a 1.
pub open spec fn bit_symbol(set: bool) -> Symbol {
    if set {
        Symbol::Pulse { high_ns: LONG_NS, low_ns: SHORT_NS }
    } else {
        Symbol::Pulse { high_ns: SHORT_NS, low_ns: LONG_NS }
    }
}

pub open spec fn reset_symbol() -> Symbol {
    Symbol::Gap { ns: RESET_NS }
}

/// A gamma-corrected colour.
#[derive(Debug, Clone, Copy, PartialEq, Eq, Structural)]
pub struct RGB8 {
    pub red: u8,
    pub green: u8,
    pub blue: u8,
}

/// Red, green and blue in one number, red highest.
pub open spec fn packed(colour: RGB8) -> int {
    colour.red * 0x1_0000 + colour.green * 0x100 + colour.blue
}

/// Bit `k` of a number, counted from the lowest.
pub open spec fn packed_bit(number: int, k: nat) -> bool {
    number / pow2(k) as int % 2 == 1
}

/// The symbols of a colour, highest bit first.
pub open spec fn colour_symbols(colour: RGB8) -> Seq<Symbol> {
    Seq::new(
        WS_SYMBOLS as nat,
        |i: int| bit_symbol(packed_bit(packed(colour), (23 - i) as nat)),
    )
}

/// The symbols of a frame: the reset, then those of each colour.
pub open spec fn frame_symbols(colours: Seq<RGB8>) -> Seq<Symbol> {
    Seq::new(
        (1 + WS_SYMBOLS * colours.len()) as nat,
        |i: int|
            if i == 0 {
                reset_symbol()
            } else {
                colour_symbols(colours[(i - 1) / 24])[(i - 1) % 24]
            },
    )
}

/// Symbols of a frame up to and without colour `n`.
pub open spec fn symbols_before(n: int) -> int {
    1 + WS_SYMBOLS * n
}

impl RGB8 {
    /// The colour of three levels, which are then gamma-corrected.
    pub fn uncorrected_rgb(r: usize, g: usize, b: usize) -> (colour: Self)
        requires
            r < 256,
            g < 256,
            b < 256,
        ensures
            colour == (RGB8 {
                red: GAMMA@[r as int],
                green: GAMMA@[g as int],
                blue: GAMMA@[b as int],
            }),
    {
        RGB8 { red: GAMMA[r], green: GAMMA[g], blue: GAMMA[b] }
    }

    /// The colour's symbols.
    pub fn to_ws(&self) -> (out: [Symbol; WS_SYMBOLS])
        ensures
            out@ == colour_symbols(*self),
    {
        let number: u32 = self.red as u32 * 0x1_0000 + self.green as u32 * 0x100 + self.blue as u32;
        let mut out = [Symbol::Gap { ns: RESET_NS }; WS_SYMBOLS];
        let mut rest: u32 = number;
        let mut i: usize = WS_SYMBOLS;
        proof {
            lemma2_to64();
            assert(number as int / pow2(0) as int == number) by {
                assert(pow2(0) == 1);
            }
        }
        while i > 0
            invariant
                i <= WS_SYMBOLS,
                number == packed(*self),
                out@.len() == WS_SYMBOLS,
                rest == number as int / pow2((24 - i) as nat) as int,
                forall|j: int| i <= j < 24 ==> #[trigger] out@[j] == colour_symbols(*self)[j],
            decreases i,
        {
            i = i - 1;
            out[i] = if rest % 2 == 1 {
                Symbol::Pulse { high_ns: LONG_NS, low_ns: SHORT_NS }
            } else {
                Symbol::Pulse { high_ns: SHORT_NS, low_ns: LONG_NS }
            };
            proof {
                lemma_halving(number as int, (23 - i) as nat);
            }
            rest = rest / 2;
        }
        assert(out@ =~= colour_symbols(*self));
        out
    }
}

proof fn lemma_halving(number: int, k: nat)
    requires
        0 <= number,
    ensures
        number / pow2(k) as int / 2 == number / pow2(k + 1) as int,
{
    lemma_pow2_pos(k);
    lemma_pow2_unfold(k + 1);
    lemma_div_denominator(number, pow2(k) as int, 2);
}

/// Encodes a frame in steps.
#[derive(Debug, Clone, Copy, PartialEq, Eq, Structural)]
pub struct WSEncoder {
    /// Colours encoded so far.
    pub input_position: usize,
}

/// How many of `left` colours fit in `room` symbols.
pub open spec fn colours_that_fit(left: int, room: int) -> int {
    if left <= room / 24 {
        left
    } else {
        room / 24
    }
}

/// What a step does, given where the frame stands: the symbols that it writes,
/// the colours encoded after it, and whether the frame is complete. A frame
/// starts over at position 0, with the reset.
pub open spec fn encode_step(
    colours: Seq<RGB8>,
    encoded: int,
    position: int,
    room: int,
) -> (Seq<Symbol>, int, bool) {
    if position == 0 {
        if room < 1 {
            (Seq::empty(), 0, false)
        } else {
            let n = colours_that_fit(colours.len() as int, room - 1);
            (frame_symbols(colours).subrange(0, symbols_before(n)), n, n == colours.len())
        }
    } else {
        let n = encoded + colours_that_fit(colours.len() - encoded, room);
        (
            frame_symbols(colours).subrange(symbols_before(encoded), symbols_before(n)),
            n,
            n == colours.len(),
        )
    }
}

impl WSEncoder {
    pub fn new() -> (r: Self)
        ensures
            r.input_position == 0,
    {
        WSEncoder { input_position: 0 }
    }

    /// Encodes as much of the frame as fits in `buffer`. `position` is how many
    /// symbols of the frame have been written before. Gives the number of
    /// symbols written at the start of `buffer`, and whether they complete the
    /// frame; if not, more room is needed.
    pub fn encode(
        &mut self,
        input_data: &[RGB8],
        position: usize,
        buffer: &mut [Symbol],
    ) -> (r: (usize, bool))
        requires
            position != 0 ==> old(self).input_position <= input_data@.len(),
        ensures
            ({
                let step = encode_step(
                    input_data@,
                    old(self).input_position as int,
                    position as int,
                    old(buffer)@.len() as int,
                );
                &&& r.0 == step.0.len()
                &&& final(buffer)@ == step.0 + old(buffer)@.skip(r.0 as int)
                &&& final(self).input_position == step.1
                &&& r.1 == step.2
            }),
    {
        let room: usize = buffer.len();
        let mut written: usize = 0;
        if position == 0 {
            self.input_position = 0;
            if room < 1 {
                assert(buffer@ =~= Seq::empty() + old(buffer)@.skip(0));
                return (0, false);
            }
            buffer[0] = Symbol::Gap { ns: RESET_NS };
            written = 1;
        }
        let ghost start = self.input_position as int;
        let ghost first = if position == 0 {
            0
        } else {
            symbols_before(start)
        };
        let ghost frame = frame_symbols(input_data@);
        while self.input_position < input_data.len() && room - written >= WS_SYMBOLS
            invariant
                start <= self.input_position <= input_data@.len(),
                first == (if position == 0 {
                    0
                } else {
                    symbols_before(start)
                }),
                position == 0 ==> start == 0,
                0 <= start,
                frame == frame_symbols(input_data@),
                written == symbols_before(self.input_position as int) - first,
                written <= room,
                room == buffer@.len(),
                room == old(buffer)@.len(),
                forall|i: int| 0 <= i < written ==> #[trigger] buffer@[i] == frame[first + i],
                forall|i: int| written <= i < room ==> #[trigger] buffer@[i] == old(buffer)@[i],
            decreases input_data@.len() - self.input_position,
        {
            let ws = input_data[self.input_position].to_ws();
            let mut k: usize = 0;
            while k < WS_SYMBOLS
                invariant
                    k <= WS_SYMBOLS,
                    0 <= self.input_position < input_data@.len(),
                    0 <= first,
                    frame == frame_symbols(input_data@),
                    ws@ == colour_symbols(input_data@[self.input_position as int]),
                    written == symbols_before(self.input_position as int) - first,
                    written + WS_SYMBOLS <= room,
                    room == buffer@.len(),
                    room == old(buffer)@.len(),
                    forall|i: int|
                        0 <= i < written + k ==> #[trigger] buffer@[i] == frame[first + i],
                    forall|i: int|
                        written + k <= i < room ==> #[trigger] buffer@[i] == old(buffer)@[i],
                decreases WS_SYMBOLS - k,
            {
                buffer[written + k] = ws[k];
                assert(frame[first + written + k] == ws@[k as int]);
                k = k + 1;
            }
            self.input_position = self.input_position + 1;
            written = written + WS_SYMBOLS;
        }
        let done = self.input_position == input_data.len();
        proof {
            let step = encode_step(
                input_data@,
                old(self).input_position as int,
                position as int,
                room as int,
            );
            assert(self.input_position == step.1);
            assert(step.0 =~= frame.subrange(first, first + written));
            assert(buffer@ =~= step.0 + old(buffer)@.skip(written as int));
        }
        (written, done)
    }
}

/// However the peripheral parcels out its room, the steps of a frame make up
/// the frame: what was written and what the step adds are the frame up to the
/// colours then encoded, and a complete frame is the whole of it.
pub proof fn law_steps_make_the_frame(colours: Seq<RGB8>, encoded: int, position: int, room: int)
    requires
        0 <= encoded <= colours.len(),
        position == 0 || position == symbols_before(encoded),
        0 <= room,
    ensures
        ({
            let step = encode_step(colours, encoded, position, room);
            let written = frame_symbols(colours).take(position) + step.0;
            &&& 0 <= step.1 <= colours.len()
            &&& written.len() == 0 || written.len() == symbols_before(step.1)
            &&& written == frame_symbols(colours).take(written.len() as int)
            &&& step.0.len() <= room
            &&& step.2 ==> written == frame_symbols(colours)
        }),
{
    let step = encode_step(colours, encoded, position, room);
    let frame = frame_symbols(colours);
    let written = frame.take(position) + step.0;
    if position == 0 {
        assert(frame.take(0) + step.0 =~= step.0);
        if room >= 1 {
            assert(step.0 =~= frame.take(symbols_before(step.1)));
        } else {
            assert(written =~= frame.take(0));
        }
    } else {
        assert(written =~= frame.take(symbols_before(step.1)));
    }
    if step.2 {
        assert(frame.take(frame.len() as int) =~= frame);
    }
}

/// A step with room for one LED gets on with an unfinished frame: it writes
/// something, and encodes a colour unless the reset took up the room.
pub proof fn law_steps_make_progress(colours: Seq<RGB8>, encoded: int, position: int, room: int)
    requires
        0 <= encoded < colours.len(),
        position == 0 ==> encoded == 0,
        room >= MIN_CHUNK_SIZE,
    ensures
        encode_step(colours, encoded, position, room).0.len() > 0,
        position != 0 || room > MIN_CHUNK_SIZE ==> encode_step(
            colours,
            encoded,
            position,
            room,
        ).1 > encoded,
{
}

/// The colour that an amplitude lights a LED in: green only.
pub fn amplitude_colour(amplitude: u32) -> (colour: RGB8)
    ensures
        colour == (RGB8 {
            red: GAMMA@[0],
            green: GAMMA@[green_level(amplitude)],
            blue: GAMMA@[0],
        }),
{
    let green: usize = if amplitude < 255 {
        amplitude as usize
    } else {
        255
    };
    RGB8::uncorrected_rgb(0, green, 0)
}

/// The strip's colours.
pub struct RMTOutput {}

impl RMTOutput {
    /// The frame that amplitudes light the strip in, one for each LED.
    pub fn amplitude_frame(buf: &[u32]) -> (frame: [RGB8; LED_COUNT])
        requires
            buf@.len() >= LED_COUNT,
        ensures
            forall|i: int|
                0 <= i < LED_COUNT ==> #[trigger] frame@[i] == (RGB8 {
                    red: GAMMA@[0],
                    green: GAMMA@[green_level(buf@[i])],
                    blue: GAMMA@[0],
                }),
    {
        let mut frame = [RGB8 { red: 0, green: 0, blue: 0 }; LED_COUNT];
        let mut i: usize = 0;
        while i < LED_COUNT
            invariant
                i <= LED_COUNT,
                frame@.len() == LED_COUNT,
                buf@.len() >= LED_COUNT,
                forall|j: int|
                    0 <= j < i ==> #[trigger] frame@[j] == (RGB8 {
                        red: GAMMA@[0],
                        green: GAMMA@[green_level(buf@[j])],
                        blue: GAMMA@[0],
                    }),
            decreases LED_COUNT - i,
        {
            frame[i] = amplitude_colour(buf[i]);
            i = i + 1;
        }
        frame
    }
}

/// A colour is 24 symbols: the bits of red, then of green, then of blue, the
/// highest of each first. A 1 is high for 960 ns and low for 320, a 0 the other
/// way round.
pub proof fn law_each_bit_is_a_symbol(colour: RGB8, k: nat)
    requires
        k < 8,
    ensures
        colour_symbols(colour).len() == 24,
        colour_symbols(colour)[7 - k] == (if colour.red as int / pow2(k) as int % 2 == 1 {
            Symbol::Pulse { high_ns: 960, low_ns: 320 }
        } else {
            Symbol::Pulse { high_ns: 320, low_ns: 960 }
        }),
        colour_symbols(colour)[15 - k] == (if colour.green as int / pow2(k) as int % 2 == 1 {
            Symbol::Pulse { high_ns: 960, low_ns: 320 }
        } else {
            Symbol::Pulse { high_ns: 320, low_ns: 960 }
        }),
        colour_symbols(colour)[23 - k] == (if colour.blue as int / pow2(k) as int % 2 == 1 {
            Symbol::Pulse { high_ns: 960, low_ns: 320 }
        } else {
            Symbol::Pulse { high_ns: 320, low_ns: 960 }
        }),
{
    let n = packed(colour);
    let r = colour.red as int;
    let g = colour.green as int;
    let b = colour.blue as int;
    let p = pow2(k) as int;
    lemma2_to64();
    lemma_pow2_pos(k);
    lemma_pow2_adds(16, k);
    lemma_pow2_adds(8, k);
    lemma_div_denominator(n, 0x1_0000, p);
    lemma_div_denominator(n, 0x100, p);
    assert(n / 0x1_0000 == r);
    assert(n / 0x100 == 0x100 * r + g);
    lemma_low_byte_bit(r, g, k);
    lemma_low_byte_bit(0x100 * r + g, b, k);
    assert((23 - (7 - k)) as nat == 16 + k);
    assert((23 - (15 - k)) as nat == 8 + k);
    assert((23 - (23 - k)) as nat == k);
}

/// What stands above a byte does not touch its bits.
proof fn lemma_low_byte_bit(high: int, byte: int, k: nat)
    requires
        k < 8,
    ensures
        (0x100 * high + byte) / pow2(k) as int % 2 == byte / pow2(k) as int % 2,
{
    let p = pow2(k) as int;
    let half = pow2((7 - k) as nat) as int;
    lemma2_to64();
    lemma_pow2_pos(k);
    lemma_pow2_adds(k, (7 - k) as nat);
    assert(p * half == 128);
    let j = 2 * (half * high);
    assert(j * p == 0x100 * high) by (nonlinear_arith)
        requires
            p * half == 128,
            j == 2 * (half * high),
    ;
    lemma_hoist_over_denominator(byte, j, p as nat);
    assert((0x100 * high + byte) / p == byte / p + j);
}

/// A frame starts with one reset of 280 microseconds. The symbols of each colour
/// follow those of the one before.
pub proof fn law_frame_is_a_reset_and_its_colours(colours: Seq<RGB8>)
    ensures
        frame_symbols(colours).len() == 1 + 24 * colours.len(),
        frame_symbols(colours)[0] == (Symbol::Gap { ns: 280_000 }),
        forall|led: int, k: int|
            0 <= led < colours.len() && 0 <= k < 24 ==> frame_symbols(colours)[1 + 24 * led + k]
                == #[trigger] colour_symbols(colours[led])[k],
{
}

/// A step uses the room that it gets: it stops short of the end of the frame
/// only when no further colour fits. The frame is complete exactly when all
/// colours are encoded. A frame starts over at position 0, whatever was encoded.
pub proof fn law_steps_use_the_room(colours: Seq<RGB8>, encoded: int, position: int, room: int)
    requires
        0 <= encoded <= colours.len(),
        0 <= position,
        1 <= room,
    ensures
        ({
            let step = encode_step(colours, encoded, position, room);
            &&& step.2 <==> step.1 == colours.len()
            &&& !step.2 ==> room - step.0.len() < 24
            &&& position == 0 ==> step.0.len() == 1 + 24 * step.1
            &&& position > 0 ==> step.0.len() == 24 * (step.1 - encoded)
            &&& forall|i: int|
                0 <= i < step.0.len() ==> #[trigger] step.0[i] == frame_symbols(colours)[i + (
                if position == 0 {
                    0
                } else {
                    1 + 24 * encoded
                })]
        }),
        encode_step(colours, encoded, position, 0).0.len() == 0,
{
}

/// The peripheral ticks every 160 ns, its memory holds a whole strip of 20 LEDs,
/// four frames can wait for it, and a step needs room for one LED.
pub proof fn law_peripheral_sizes()
    ensures
        LED_COUNT == 20,
        RMT_RESOLUTION_HZ * 160 == 1_000_000_000,
        MEMORY_BLOCK_SYMBOLS == 480,
        QUEUE_DEPTH == 4,
        MIN_CHUNK_SIZE == 24,
{
}

} // verus!
