use esp32_bt_speaker::audio::decoder::{
    codec_config, AacConfig, CodecConfig, DecoderAction, DecoderMsg, DecoderQueue, DecoderResult,
    DecoderState, DecoderTask, DrainStep, Progress, SbcConfig, SbcMode, FRAME_CHANNEL_DEPTH,
    PCM_OUT_BUF,
};
use esp32_bt_speaker::audio::i2s_input::{clip_sample, convert_slots, Mic, RING_CAPACITY};
use esp32_bt_speaker::audio::i2s_output::{
    DacAction, DacState, DacWriter, DataBitWidth, I2SAudioOutput, SlotMode, StdConfig,
    CHANNEL_DEPTH,
};
use esp32_bt_speaker::audio::sample::{
    measure_peak, sample_from_le, sample_magnitude, sample_to_le,
};
use esp32_bt_speaker::audio::{AudioOutputFormat, CodecChoice};
use esp32_bt_speaker::channel::{TryRecvError, TrySendError};
use esp32_bt_speaker::stats::Counters;

const AAC: CodecChoice = CodecChoice::Aac { sample_rate: 44_100, channels: 2 };
const SBC: CodecChoice = CodecChoice::Sbc { sample_rate: 48_000, channels: 1 };

fn format(sample_rate: u32, channels: u8, bits: u8) -> AudioOutputFormat {
    AudioOutputFormat { sample_rate, channels, bits }
}

fn open_decoder(choice: CodecChoice) -> DecoderState {
    let mut st = DecoderState::new();
    match st.on_message(DecoderMsg::SwitchCodec(choice)) {
        DecoderAction::Open(c, config) => {
            assert_eq!(c, choice);
            assert_eq!(config, codec_config(choice));
        }
        _ => panic!("codec change asks for an open"),
    }
    st.codec_opened(choice, true);
    st
}

#[test]
fn codec_choice_parts() {
    assert_eq!(AAC.sample_rate(), 44_100);
    assert_eq!(AAC.channels(), 2);
    assert_eq!(SBC.sample_rate(), 48_000);
    assert_eq!(SBC.channels(), 1);
}

#[test]
fn samples_little_endian() {
    assert_eq!(sample_from_le(0x34, 0x12), 0x1234);
    assert_eq!(sample_from_le(0xFF, 0xFF), -1);
    assert_eq!(sample_from_le(0x00, 0x80), i16::MIN);
    assert_eq!(sample_to_le(-2), (0xFE, 0xFF));
    assert_eq!(sample_magnitude(i16::MIN), 32_768);
    for s in i16::MIN..=i16::MAX {
        let (lo, hi) = sample_to_le(s);
        assert_eq!([lo, hi], s.to_le_bytes());
        assert_eq!(sample_from_le(lo, hi), s);
        assert_eq!(sample_magnitude(s), s.unsigned_abs());
    }
}

#[test]
fn peak_ignores_the_odd_byte() {
    let pcm = vec![0x10, 0x00, 0x00, 0x80, 0x05, 0x00, 0xFF];
    assert_eq!(measure_peak(&pcm, 2), 16);
    assert_eq!(measure_peak(&pcm, 7), 32_768);
    assert_eq!(measure_peak(&pcm, 1), 0);
    assert_eq!(measure_peak(&pcm, 0), 0);
}

#[test]
fn codec_configs() {
    assert_eq!(
        codec_config(AAC),
        CodecConfig::Aac(AacConfig {
            sample_rate: 44_100,
            channels: 2,
            bits_per_sample: 16,
            no_adts_header: true,
            aac_plus_enable: false,
        })
    );
    assert_eq!(
        codec_config(SBC),
        CodecConfig::Sbc(SbcConfig { mode: SbcMode::Std, channels: 1, enable_plc: false })
    );
}

#[test]
fn frames_before_a_codec_are_dropped() {
    let mut st = DecoderState::new();
    assert_eq!(st.out_buf.len(), PCM_OUT_BUF);
    assert!(matches!(st.on_message(DecoderMsg::Frame(vec![1, 2])), DecoderAction::Ignore));
    assert!(st.decode_buffer.is_empty());
}

#[test]
fn decoding_carries_the_session_format() {
    let mut st = open_decoder(AAC);
    let mut c = Counters::new();
    let packet = match st.on_message(DecoderMsg::Frame(vec![9, 8, 7, 6, 5])) {
        DecoderAction::Decode(packet) => packet,
        _ => panic!("a codec is open"),
    };
    assert!(st.push_packet(&packet));
    st.out_buf[..4].copy_from_slice(&[0x01, 0x00, 0xF0, 0xFF]);
    let step = st.on_result(DecoderResult::Progressed { consumed: 3, decoded: 4 }, &mut c);
    let pcm = step.pcm.unwrap();
    assert_eq!(pcm.format, format(44_100, 2, 16));
    assert_eq!(pcm.samples, vec![0x01, 0x00, 0xF0, 0xFF]);
    assert!(step.first_frame);
    assert!(step.again);
    assert!(!step.detailed_error);
    assert_eq!(
        step.progress,
        Some(Progress {
            frame: 1,
            consumed: 3,
            decoded: 4,
            total_pcm: 4,
            peak: 16,
            buf_remain: 2,
        })
    );
    assert_eq!(st.decode_buffer, vec![6, 5]);
    assert_eq!(c.frames_decoded_delta, 1);
    assert_eq!(c.pcm_peak_abs, 16);
}

#[test]
fn progress_comes_at_powers_of_two() {
    let mut st = open_decoder(SBC);
    let mut c = Counters::new();
    st.out_buf[..2].copy_from_slice(&[0x07, 0x00]);
    let mut at = Vec::new();
    for n in 1..=20u64 {
        st.push_packet(&[0, 0]);
        let step = st.on_result(DecoderResult::Progressed { consumed: 2, decoded: 2 }, &mut c);
        assert!(!step.again);
        assert_eq!(step.first_frame, n == 1);
        if let Some(p) = step.progress {
            assert_eq!(p.frame, n);
            assert_eq!(p.total_pcm, 2 * n);
            assert_eq!(p.peak, 7);
            at.push(n);
        }
        assert_eq!(c.pcm_peak_abs, 7);
    }
    assert_eq!(at, vec![1, 2, 4, 8, 16]);
}

#[test]
fn a_half_frame_rejoins_the_next_packet() {
    let mut st = open_decoder(AAC);
    let mut c = Counters::new();
    st.push_packet(&[1, 2, 3]);
    let step = st.on_result(DecoderResult::Continue { consumed: 2 }, &mut c);
    assert!(step.again);
    let step = st.on_result(DecoderResult::DataLack, &mut c);
    assert!(!step.again);
    st.push_packet(&[4, 5]);
    assert_eq!(st.decode_buffer, vec![3, 4, 5]);
    let step = st.on_result(DecoderResult::Continue { consumed: 3 }, &mut c);
    assert!(!step.again);
    assert!(st.decode_buffer.is_empty());
    assert_eq!(c, Counters::new());
}

#[test]
fn nothing_consumed_stops_the_codec() {
    let mut st = open_decoder(AAC);
    let mut c = Counters::new();
    st.push_packet(&[1, 2, 3]);
    let step = st.on_result(DecoderResult::Progressed { consumed: 0, decoded: 8 }, &mut c);
    assert_eq!(step.pcm.unwrap().samples, vec![0; 8]);
    assert!(!step.again);
    assert_eq!(st.decode_buffer, vec![1, 2, 3]);
    let step = st.on_result(DecoderResult::Continue { consumed: 0 }, &mut c);
    assert!(!step.again);
}

#[test]
fn a_small_output_buffer_grows() {
    let mut st = open_decoder(AAC);
    let mut c = Counters::new();
    st.push_packet(&[1, 2, 3]);
    st.out_buf[4095] = 77;
    let r = DecoderResult::BuffNotEnough { consumed: 2, needed: 5000 };
    let step = st.on_result(r, &mut c);
    assert!(step.again);
    assert_eq!(st.out_buf.len(), 8192);
    assert_eq!(st.out_buf[4095], 77);
    assert_eq!(st.out_buf[4096], 0);
    assert_eq!(st.decode_buffer, vec![1, 2, 3]);
    st.on_result(DecoderResult::BuffNotEnough { consumed: 0, needed: 20_000 }, &mut c);
    assert_eq!(st.out_buf.len(), 20_000);
}

#[test]
fn a_failure_drops_the_input() {
    let mut st = open_decoder(SBC);
    let mut c = Counters::new();
    for n in 0..17u64 {
        st.push_packet(&[1, 2, 3]);
        let step = st.on_result(DecoderResult::Failed, &mut c);
        assert!(!step.again);
        assert_eq!(step.detailed_error, n < 16);
        assert!(st.decode_buffer.is_empty());
        st.push_packet(&[1]);
        st.on_result(DecoderResult::Progressed { consumed: 1, decoded: 2 }, &mut c);
    }
    assert_eq!(c.decode_errs, 17);
}

#[test]
fn runs_out_of_bounds_are_told_apart() {
    let mut st = DecoderState::new();
    assert!(!st.accepts(DecoderResult::DataLack));
    st = open_decoder(AAC);
    assert!(!st.accepts(DecoderResult::DataLack));
    st.push_packet(&[1, 2]);
    assert!(st.accepts(DecoderResult::DataLack));
    assert!(st.accepts(DecoderResult::Failed));
    assert!(st.accepts(DecoderResult::Progressed { consumed: 2, decoded: 4096 }));
    assert!(!st.accepts(DecoderResult::Progressed { consumed: 3, decoded: 0 }));
    assert!(!st.accepts(DecoderResult::Progressed { consumed: 0, decoded: 4097 }));
    assert!(st.accepts(DecoderResult::Continue { consumed: 2 }));
    assert!(!st.accepts(DecoderResult::Continue { consumed: 3 }));
    let most = isize::MAX as usize;
    assert!(st.accepts(DecoderResult::BuffNotEnough { consumed: 9, needed: most }));
    assert!(!st.accepts(DecoderResult::BuffNotEnough { consumed: 0, needed: most + 1 }));
    st.frames_decoded = u64::MAX;
    assert!(st.accepts(DecoderResult::Progressed { consumed: 1, decoded: 0 }));
    assert!(!st.accepts(DecoderResult::Progressed { consumed: 1, decoded: 1 }));
    st.frames_decoded = 0;
    st.pcm_bytes = u64::MAX - 3;
    assert!(st.accepts(DecoderResult::Progressed { consumed: 1, decoded: 3 }));
    assert!(!st.accepts(DecoderResult::Progressed { consumed: 1, decoded: 4 }));
}

#[test]
fn reset_and_switch_forget_the_session() {
    let mut st = open_decoder(AAC);
    let mut c = Counters::new();
    st.push_packet(&[1, 2, 3]);
    st.on_result(DecoderResult::Progressed { consumed: 1, decoded: 2 }, &mut c);
    st.codec_opened(SBC, true);
    assert!(st.decode_buffer.is_empty());
    assert_eq!((st.frames_decoded, st.pcm_bytes), (0, 0));
    assert_eq!(st.format, Some(format(48_000, 1, 16)));
    st.push_packet(&[4]);
    st.on_result(DecoderResult::Failed, &mut c);
    st.push_packet(&[5]);
    let step = st.on_result(DecoderResult::Progressed { consumed: 1, decoded: 2 }, &mut c);
    assert_eq!(step.pcm.unwrap().format, format(48_000, 1, 16));
    st.push_packet(&[6]);
    assert!(matches!(st.on_message(DecoderMsg::Reset), DecoderAction::DrainQueue));
    assert_eq!(st.format, None);
    assert!(st.decode_buffer.is_empty());
}

#[test]
fn a_codec_that_does_not_open_ends_the_session() {
    let mut st = open_decoder(AAC);
    st.push_packet(&[1, 2]);
    st.codec_opened(SBC, false);
    assert_eq!(st.format, None);
    assert_eq!(st.decode_buffer, vec![1, 2]);
    assert!(matches!(st.on_message(DecoderMsg::Frame(vec![3])), DecoderAction::Ignore));
}

#[test]
fn the_loudest_sample_is_kept_until_the_report() {
    let mut st = open_decoder(SBC);
    let mut c = Counters::new();
    st.push_packet(&[1]);
    st.out_buf[..2].copy_from_slice(&[0x00, 0x80]);
    let step = st.on_result(DecoderResult::Progressed { consumed: 1, decoded: 2 }, &mut c);
    assert_eq!(step.progress.unwrap().peak, 32_768);
    assert_eq!(c.pcm_peak_abs, 32_768);
}

#[test]
fn decoder_handle_sends_and_drops() {
    let (mut task, mut queue) = DecoderTask::channel();
    let mut c = Counters::new();
    assert!(task.switch_codec(AAC).is_ok());
    assert!(task.clone().send_frame(vec![1, 2], &mut c).is_ok());
    assert_eq!(c, Counters::new());
    assert!(matches!(queue.next(), Some(DecoderMsg::SwitchCodec(choice)) if choice == AAC));
    assert!(matches!(queue.next(), Some(DecoderMsg::Frame(p)) if p == vec![1, 2]));
    assert!(task.reset().is_ok());
    assert!(matches!(queue.next(), Some(DecoderMsg::Reset)));
    drop(queue);
    assert!(matches!(task.reset(), Err(DecoderMsg::Reset)));
    assert!(matches!(task.switch_codec(SBC), Err(DecoderMsg::SwitchCodec(c)) if c == SBC));
    match task.send_frame(vec![4], &mut c) {
        Err(TrySendError::Disconnected(DecoderMsg::Frame(p))) => assert_eq!(p, vec![4]),
        _ => panic!("the receiver is gone"),
    }
    assert_eq!(c.dropped_sends, 1);
}

#[test]
fn a_full_decoder_drops_and_counts() {
    let (mut task, mut queue) = DecoderTask::channel();
    let mut c = Counters::new();
    for n in 0..FRAME_CHANNEL_DEPTH as u8 {
        assert!(task.send_frame(vec![n], &mut c).is_ok());
    }
    assert_eq!(c.dropped_sends, 0);
    match task.send_frame(vec![99], &mut c) {
        Err(TrySendError::Full(DecoderMsg::Frame(p))) => assert_eq!(p, vec![99]),
        _ => panic!("the channel is full"),
    }
    assert_eq!(c.dropped_sends, 1);
    drop(task);
    for n in 0..FRAME_CHANNEL_DEPTH as u8 {
        assert!(matches!(queue.next(), Some(DecoderMsg::Frame(p)) if p == vec![n]));
    }
    assert!(queue.next().is_none());
    assert!(queue.next().is_none());
}

#[test]
fn the_channels_answer_is_counted() {
    let mut c = Counters::new();
    assert!(DecoderTask::frame_offered(Ok(()), &mut c).is_ok());
    assert_eq!(c, Counters::new());
    let full = Err(TrySendError::Full(DecoderMsg::Frame(vec![1])));
    assert!(matches!(
        DecoderTask::frame_offered(full, &mut c),
        Err(TrySendError::Full(DecoderMsg::Frame(p))) if p == vec![1]
    ));
    let gone = Err(TrySendError::Disconnected(DecoderMsg::Frame(vec![2])));
    assert!(DecoderTask::frame_offered(gone, &mut c).is_err());
    assert_eq!(c.dropped_sends, 2);
}

#[test]
fn a_reset_drops_waiting_frames_only() {
    let (mut task, mut queue) = DecoderTask::channel();
    let mut st = open_decoder(AAC);
    let mut c = Counters::new();
    task.reset().unwrap();
    task.send_frame(vec![7], &mut c).unwrap();
    task.send_frame(vec![8], &mut c).unwrap();
    task.switch_codec(SBC).unwrap();
    task.send_frame(vec![1, 2], &mut c).unwrap();
    drop(task);

    let msg = queue.next().unwrap();
    assert!(matches!(st.on_message(msg), DecoderAction::DrainQueue));
    assert_eq!(queue.drain_frames(), 2);
    assert_eq!(queue.drain_frames(), 0);
    let msg = queue.next().unwrap();
    assert!(matches!(st.on_message(msg), DecoderAction::Open(choice, _) if choice == SBC));
    st.codec_opened(SBC, true);
    let msg = queue.next().unwrap();
    match st.on_message(msg) {
        DecoderAction::Decode(packet) => assert!(st.push_packet(&packet)),
        _ => panic!("a codec is open"),
    }
    st.out_buf[..2].copy_from_slice(&[5, 6]);
    let step = st.on_result(DecoderResult::Progressed { consumed: 2, decoded: 2 }, &mut c);
    let pcm = step.pcm.unwrap();
    assert_eq!((pcm.format, pcm.samples), (format(48_000, 1, 16), vec![5, 6]));
    assert_eq!(queue.drain_frames(), 0);
    assert!(queue.next().is_none());
}

#[test]
fn draining_goes_on_until_nothing_waits() {
    let (mut task, mut queue) = DecoderTask::channel();
    let mut c = Counters::new();
    assert_eq!(queue.drain_frames(), 0);
    for n in 0..FRAME_CHANNEL_DEPTH as u8 {
        task.send_frame(vec![n], &mut c).unwrap();
    }
    assert_eq!(queue.drain_frames(), FRAME_CHANNEL_DEPTH);
    assert_eq!(queue.drain_frames(), 0);
    task.send_frame(vec![1], &mut c).unwrap();
    task.reset().unwrap();
    task.send_frame(vec![2], &mut c).unwrap();
    drop(task);
    assert_eq!(queue.drain_frames(), 1);
    assert!(matches!(queue.next(), Some(DecoderMsg::Reset)));
    assert_eq!(queue.drain_frames(), 1);
    assert!(queue.next().is_none());
}

#[test]
fn draining_goes_by_the_channels_answer() {
    let step = DecoderQueue::drain_step;
    assert!(matches!(step(Ok(DecoderMsg::Frame(vec![1]))), DrainStep::Dropped));
    assert!(matches!(step(Ok(DecoderMsg::Reset)), DrainStep::Kept(DecoderMsg::Reset)));
    assert!(matches!(
        step(Ok(DecoderMsg::SwitchCodec(AAC))),
        DrainStep::Kept(DecoderMsg::SwitchCodec(c)) if c == AAC
    ));
    assert!(matches!(step(Err(TryRecvError::Empty)), DrainStep::Stopped));
    assert!(matches!(step(Err(TryRecvError::Disconnected)), DrainStep::Stopped));
    assert!(DecoderQueue::is_stale(&DecoderMsg::Frame(vec![])));
    assert!(!DecoderQueue::is_stale(&DecoderMsg::Reset));
}

#[test]
fn pcm_handle_sends_and_returns() {
    let (mut out, mut queue) = I2SAudioOutput::channel();
    let mut other = out.clone();
    for n in 0..CHANNEL_DEPTH as u8 {
        let handle = if n % 2 == 0 { &mut out } else { &mut other };
        let rate = 16_000 + u32::from(n);
        assert!(handle.send_pcm(format(rate, 2, 16), vec![n]).is_ok());
    }
    match other.send_pcm(format(44_100, 2, 16), vec![4]) {
        Err(TrySendError::Full(frame)) => {
            assert_eq!(frame.format, format(44_100, 2, 16));
            assert_eq!(frame.samples, vec![4]);
        }
        _ => panic!("the channel is full"),
    }
    for n in 0..CHANNEL_DEPTH as u8 {
        let frame = queue.next().unwrap();
        assert_eq!(frame.format, format(16_000 + u32::from(n), 2, 16));
        assert_eq!(frame.samples, vec![n]);
    }
    drop(other);
    assert!(out.send_pcm(format(8_000, 1, 16), vec![]).is_ok());
    drop(out);
    assert!(queue.next().is_some());
    assert!(queue.next().is_none());

    let (mut out, queue) = I2SAudioOutput::channel();
    drop(queue);
    assert!(matches!(
        out.send_pcm(format(16_000, 2, 16), vec![5]),
        Err(TrySendError::Disconnected(f)) if f.samples == vec![5]
    ));
}

#[test]
fn driver_settings() {
    let config = |sample_rate, bit_width, slot_mode| StdConfig {
        auto_clear: true,
        sample_rate,
        bit_width,
        slot_mode,
    };
    let built = I2SAudioOutput::build_std_config;
    assert_eq!(
        built(format(44_100, 2, 16)),
        config(44_100, DataBitWidth::Bits16, SlotMode::Stereo)
    );
    assert_eq!(
        built(format(8_000, 1, 24)),
        config(8_000, DataBitWidth::Bits24, SlotMode::Mono)
    );
    assert_eq!(
        built(format(96_000, 6, 32)),
        config(96_000, DataBitWidth::Bits32, SlotMode::Stereo)
    );
    assert_eq!(built(format(1, 0, 8)), config(1, DataBitWidth::Bits16, SlotMode::Mono));
}

#[test]
fn dac_follows_the_frames() {
    let call = format(16_000, 2, 16);
    let music = format(44_100, 2, 16);
    let mut dac = DacWriter::new();
    let mut c = Counters::new();
    assert_eq!(dac.next_action(music), DacAction::Build(I2SAudioOutput::build_std_config(music)));
    assert!(dac.apply_format(music, true));
    assert_eq!(dac.next_action(music), DacAction::Write);
    assert!(dac.apply_format(music, true));
    assert_eq!(
        dac.next_action(call),
        DacAction::Reconfigure(I2SAudioOutput::build_std_config(call))
    );
    assert!(!dac.apply_format(call, false));
    assert_eq!(dac.state, DacState::Running(music));
    assert!(dac.apply_format(call, true));
    assert_eq!(dac.state, DacState::Running(call));
    dac.samples_written(true, &mut c);
    assert_eq!(c, Counters::new());
    dac.samples_written(false, &mut c);
    assert_eq!(c.i2s_write_errs, 1);
}

#[test]
fn a_dac_that_cannot_be_built_is_lost() {
    let music = format(44_100, 2, 16);
    let mut dac = DacWriter::new();
    assert!(!dac.apply_format(music, false));
    assert_eq!(dac.state, DacState::Lost);
    assert_eq!(dac.next_action(music), DacAction::Ignore);
    assert!(!dac.apply_format(music, true));
    assert_eq!(dac.state, DacState::Lost);
}

#[test]
fn slots_keep_their_upper_bits() {
    let mut raw = Vec::new();
    for v in [0x1234_5678i32, -1, i32::MIN, 0x0000_FFFF] {
        raw.extend_from_slice(&v.to_le_bytes());
    }
    raw.push(9);
    assert_eq!(convert_slots(&raw), vec![0x1234, -1, i16::MIN, 0]);
    assert_eq!(convert_slots(&[]), Vec::<i16>::new());
}

#[test]
fn clipping() {
    assert_eq!(clip_sample(40_000), (i16::MAX, true));
    assert_eq!(clip_sample(32_767), (i16::MAX, true));
    assert_eq!(clip_sample(32_766), (32_766, false));
    assert_eq!(clip_sample(-32_768), (i16::MIN, true));
    assert_eq!(clip_sample(-32_767), (-32_767, false));
}

#[test]
fn mic_gives_back_what_it_captured() {
    let mut mic = Mic::new();
    let mut c = Counters::new();
    mic.capture(&[1, -2, 99_999], &mut c);
    assert_eq!(c.mic_clip_count, 1);
    assert_eq!(c.mic_peak_abs, 32_767);
    assert_eq!(c.mic_ring_overflows, 0);
    let mut short = [0u8; 7];
    assert_eq!(mic.read(&mut short), 0);
    assert_eq!(short, [0; 7]);
    let mut dst = [0u8; 4];
    assert_eq!(mic.read(&mut dst), 4);
    assert_eq!(dst, [1, 0, 0xFE, 0xFF]);
    let mut dst = [0u8; 2];
    assert_eq!(mic.read(&mut dst), 2);
    assert_eq!(dst, [0xFF, 0x7F]);
    assert_eq!(mic.read(&mut dst), 0);
    assert_eq!(mic.read(&mut []), 0);
}

#[test]
fn mic_ring_overflows_once_per_capture() {
    let mut mic = Mic::new();
    let mut c = Counters::new();
    let batch = vec![5i32; RING_CAPACITY / 2];
    mic.capture(&batch, &mut c);
    assert_eq!(c.mic_ring_overflows, 0);
    mic.capture(&[], &mut c);
    assert_eq!(c.mic_ring_overflows, 0);
    mic.capture(&[6, 6], &mut c);
    assert_eq!(c.mic_ring_overflows, 1);
    let mut one = [0u8; 1];
    assert_eq!(mic.read(&mut one), 1);
    mic.capture(&[0x0807], &mut c);
    assert_eq!(c.mic_ring_overflows, 2);
    let mut all = vec![0u8; RING_CAPACITY];
    assert_eq!(mic.read(&mut all), RING_CAPACITY);
    assert_eq!(all[RING_CAPACITY - 1], 7);
    assert_eq!(c.mic_peak_abs, 0x0807);
}

#[test]
fn mic_drains_and_keeps_its_gain() {
    let mut mic = Mic::new();
    let mut c = Counters::new();
    assert_eq!(mic.gain_milli_db(), 14_000);
    mic.set_gain_milli_db(-3_000);
    mic.capture(&[1, 2], &mut c);
    mic.drain();
    let mut dst = [0u8; 1];
    assert_eq!(mic.read(&mut dst), 0);
    assert_eq!(mic.gain_milli_db(), -3_000);
}
