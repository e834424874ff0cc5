use esp32_bt_speaker::fft_analysis::{
    analyser_stack_size, round_up_kib, FFTAnalysis, WindowReader, RING_SIZE, WINDOW_SIZE,
};
use esp32_bt_speaker::gamma::GAMMA;
use esp32_bt_speaker::led_output::{self, FrameReader, LEDOutput, LED_COUNT, RESET_BYTES};
use esp32_bt_speaker::rmt_output::{self, RMTOutput, Symbol, WSEncoder};
use esp32_bt_speaker::sample_ring::ChunkError;

const ZERO: Symbol = Symbol::Pulse { high_ns: 320, low_ns: 960 };
const ONE: Symbol = Symbol::Pulse { high_ns: 960, low_ns: 320 };
const RESET: Symbol = Symbol::Gap { ns: 280_000 };

#[test]
fn gamma_is_two_point_two() {
    for i in 0..256usize {
        let exact = (i as f64 / 255.0).powf(2.2) * 255.0;
        assert_eq!(GAMMA[i], exact.round() as u8);
        assert!(i == 0 || GAMMA[i - 1] <= GAMMA[i]);
    }
    assert_eq!((GAMMA[0], GAMMA[128], GAMMA[255]), (0, 56, 255));
}

#[test]
fn windows_replay_the_samples() {
    let (mut tx, mut rx) = FFTAnalysis::channel();
    assert!(rx.next_window().is_none());
    let samples: Vec<u8> = (0..2500u32).map(|i| (i % 251) as u8).collect();
    assert_eq!(tx.send_pcm(&samples[..1000]), Ok(()));
    assert!(rx.next_window().is_none());
    assert_eq!(tx.send_pcm(&samples[1000..]), Ok(()));
    assert_eq!(rx.next_window().unwrap()[..], samples[..WINDOW_SIZE]);
    assert_eq!(rx.next_window().unwrap()[..], samples[WINDOW_SIZE..2 * WINDOW_SIZE]);
    assert!(rx.next_window().is_none());
    let more = vec![7u8; 4096];
    assert_eq!(tx.send_pcm(&more), Err(ChunkError::TooFewSlots(RING_SIZE - 452)));
    assert_eq!(tx.send_pcm(&more[..WINDOW_SIZE]), Ok(()));
    let window = rx.next_window().unwrap();
    assert_eq!(window[..452], samples[2048..]);
    assert_eq!(window[452..], more[..572]);
}

#[test]
fn a_full_ring_takes_nothing() {
    let (mut tx, mut rx) = FFTAnalysis::channel();
    assert_eq!(tx.send_pcm(&[]), Ok(()));
    assert_eq!(tx.send_pcm(&vec![1; RING_SIZE + 1]), Err(ChunkError::TooFewSlots(RING_SIZE)));
    assert_eq!(tx.send_pcm(&vec![1; RING_SIZE]), Ok(()));
    assert_eq!(tx.send_pcm(&[2]), Err(ChunkError::TooFewSlots(0)));
    for _ in 0..4 {
        assert_eq!(rx.next_window().unwrap(), [1u8; WINDOW_SIZE]);
    }
    assert!(rx.next_window().is_none());
}

#[test]
fn the_rings_answer_decides() {
    let mut window = [0u8; WINDOW_SIZE];
    window[3] = 9;
    assert_eq!(WindowReader::window_from(Ok(()), window), Some(window));
    assert_eq!(WindowReader::window_from(Err(ChunkError::TooFewSlots(7)), window), None);
    let mut frame = [led_output::RGB8(0); LED_COUNT];
    frame[1] = led_output::RGB8(0xFFFF_FF00);
    let bytes = FrameReader::bytes_from(Some(frame)).unwrap();
    assert_eq!(bytes[..24], [0xC0; 24]);
    assert_eq!(bytes[24..48], [0xFC; 24]);
    assert_eq!(bytes[48..480], [0xC0; 432]);
    assert_eq!(bytes[480..], [0; RESET_BYTES]);
    assert_eq!(FrameReader::bytes_from(None), None);
}

#[test]
fn stacks_are_whole_kib() {
    assert_eq!(round_up_kib(0), 0);
    assert_eq!(round_up_kib(1), 1024);
    assert_eq!(round_up_kib(1024), 1024);
    assert_eq!(analyser_stack_size(), 14 * 1024);
    assert_eq!(LEDOutput::stack_size(), 5 * 1024);
}

#[test]
fn colour_words() {
    let rgb = led_output::RGB8::uncorrected_rgb;
    assert_eq!(rgb(255, 0, 0).0, 0xFF00_0000);
    assert_eq!(rgb(0, 255, 0).0, 0x00FF_0000);
    assert_eq!(rgb(0, 0, 255).0, 0x0000_FF00);
    assert_eq!(rgb(128, 64, 32).0, 0x380C_0300);
}

#[test]
fn bus_bytes_run_from_the_lowest_bit() {
    let bytes = led_output::RGB8(0x8000_0100).to_ws_bytes();
    let mut expected = [0xC0u8; 24];
    expected[0] = 0xFC;
    expected[23] = 0xFC;
    assert_eq!(bytes, expected);
    assert_eq!(led_output::RGB8(0xFFFF_FF00).to_ws_bytes(), [0xFC; 24]);
    assert_eq!(led_output::RGB8(0x0000_00FF).to_ws_bytes(), [0xC0; 24]);
    let bytes = led_output::RGB8(0x0123_4500).to_ws_bytes();
    let mut word = 0u32;
    for (i, b) in bytes.iter().enumerate() {
        if *b == 0xFC {
            word |= 1 << (8 + i);
        }
    }
    assert_eq!(word, 0x0123_4500);
}

#[test]
fn amplitudes_turn_green_then_red() {
    let colour = |a| led_output::amplitude_colour(a).0;
    assert_eq!(colour(0), 0);
    assert_eq!(colour(128), 0x0038_0000);
    assert_eq!(colour(254), 0x00FD_0000);
    assert_eq!(colour(255), 0x00FF_0000);
    assert_eq!(colour(255 + 128), 0x38FF_0000);
    assert_eq!(colour(510), 0xFFFF_0000);
    assert_eq!(colour(u32::MAX), 0xFFFF_0000);
    for x in 0..600u32 {
        let f = x as f32;
        let red = (f - 255.0).clamp(0.0, 255.0) as usize;
        let green = f.clamp(0.0, 255.0) as usize;
        assert_eq!(colour(x), led_output::RGB8::uncorrected_rgb(red, green, 0).0);
    }
}

#[test]
fn strip_shows_the_frames_in_order() {
    let (mut out, mut reader) = LEDOutput::channel();
    assert!(reader.next_frame().is_none());
    let mut buf = vec![0u32; LED_COUNT + 3];
    for n in 0..4 {
        buf[0] = 255 * n;
        assert_eq!(out.send_amplitudes(&buf), Ok(()));
    }
    assert_eq!(out.send_amplitudes(&buf), Err(()));
    let expected = [0u32, 0x00FF_0000, 0xFFFF_0000, 0xFFFF_0000];
    for word in expected {
        let bytes = reader.next_frame().unwrap();
        assert_eq!(bytes.len(), 24 * LED_COUNT + RESET_BYTES);
        assert_eq!(bytes[..24], led_output::RGB8(word).to_ws_bytes());
        assert_eq!(bytes[24..480], [0xC0; 456]);
        assert_eq!(bytes[480..], [0; 260]);
    }
    assert!(reader.next_frame().is_none());
    assert_eq!(out.send_amplitudes(&buf), Ok(()));
}

#[test]
fn symbols_run_from_the_highest_bit() {
    let colour = rmt_output::RGB8 { red: 0x80, green: 0x01, blue: 0x03 };
    let symbols = colour.to_ws();
    let ones: Vec<usize> = (0..24).filter(|i| symbols[*i] == ONE).collect();
    assert_eq!(ones, vec![0, 15, 22, 23]);
    assert_eq!(symbols.iter().filter(|s| **s == ZERO).count(), 20);
    assert_eq!(
        rmt_output::RGB8::uncorrected_rgb(128, 255, 0),
        rmt_output::RGB8 { red: 56, green: 255, blue: 0 }
    );
}

#[test]
fn steps_make_the_frame() {
    let colours = [
        rmt_output::RGB8 { red: 1, green: 2, blue: 3 },
        rmt_output::RGB8 { red: 255, green: 0, blue: 128 },
        rmt_output::RGB8 { red: 7, green: 7, blue: 7 },
    ];
    let mut whole = vec![RESET; 100];
    assert_eq!(WSEncoder::new().encode(&colours, 0, &mut whole), (73, true));
    assert_eq!(whole[0], RESET);
    assert_eq!(whole[1..25], colours[0].to_ws());
    assert_eq!(whole[49..73], colours[2].to_ws());
    assert_eq!(whole[73..], [RESET; 27]);
    whole.truncate(73);
    for room in [24usize, 25, 30, 48, 50, 73] {
        let mut encoder = WSEncoder { input_position: 99 };
        let mut written = Vec::new();
        let mut done = false;
        while !done {
            let mut buffer = vec![ONE; room];
            let (n, d) = encoder.encode(&colours, written.len(), &mut buffer);
            assert!(0 < n && n <= room);
            written.extend_from_slice(&buffer[..n]);
            done = d;
        }
        assert_eq!(written, whole);
        assert_eq!(encoder.input_position, 3);
    }
    let mut encoder = WSEncoder::new();
    let mut buffer = [ONE; 24];
    assert_eq!(encoder.encode(&colours, 0, &mut []), (0, false));
    assert_eq!(encoder.encode(&colours, 0, &mut buffer), (1, false));
    assert_eq!(buffer[0], RESET);
    assert_eq!(buffer[1..], [ONE; 23]);
    assert_eq!(encoder.encode(&[], 0, &mut buffer), (1, true));
}

#[test]
fn rmt_strip_is_green() {
    let mut buf = vec![0u32; 20];
    buf[3] = 128;
    buf[4] = 5000;
    let frame = RMTOutput::amplitude_frame(&buf);
    assert_eq!(frame[0], rmt_output::RGB8 { red: 0, green: 0, blue: 0 });
    assert_eq!(frame[3], rmt_output::RGB8 { red: 0, green: 56, blue: 0 });
    assert_eq!(frame[4], rmt_output::RGB8 { red: 0, green: 255, blue: 0 });
}
