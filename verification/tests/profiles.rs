use esp32_bt_speaker::audio::decoder::{DecoderMsg, DecoderTask, FRAME_CHANNEL_DEPTH};
use esp32_bt_speaker::audio::i2s_input::Mic;
use esp32_bt_speaker::audio::i2s_output::{I2SAudioOutput, CHANNEL_DEPTH};
use esp32_bt_speaker::audio::CodecChoice;
use esp32_bt_speaker::bluetooth::{Downmixer, DOWNMIX_BUF_SIZE};
use esp32_bt_speaker::bt::a2dp::{
    A2dpEvent, A2dpOutcome, A2dpSession, Codec, CodecKind, ConnectionStatus, EndpointCodec,
};
use esp32_bt_speaker::bt::avrcp::{
    AvrccEvent, AvrccRequest, AvrcpController, KeyCode, KeyEvent, MetadataId, NotificationType,
    PlaybackStatus,
};
use esp32_bt_speaker::bt::gap::{BtStatus, GapAction, GapEvent, GapSession};
use esp32_bt_speaker::bt::hfp::{AudioStatus, HfpSession, HfpcEvent};
use esp32_bt_speaker::bt::pair_cache::{BlobRead, PairCache, KEY, NAMESPACE};
use esp32_bt_speaker::bt::{boot_steps, BdAddr, BootStep};
use esp32_bt_speaker::channel::TrySendError;
use esp32_bt_speaker::console::{Command, Console, ConsoleStep, ReadOutcome};
use esp32_bt_speaker::stats::{AudioReport, Counters, MicReport, Stats};

const ADDR: BdAddr = BdAddr { bytes: [1, 2, 3, 4, 5, 6] };

#[test]
fn aac_bitrate() {
    assert_eq!(A2dpSession::parse_aac_bitrate(&[0xC0, 1, 0x84, 0x83, 0xE8, 0]), (true, 256_000));
    assert_eq!(A2dpSession::parse_aac_bitrate(&[0, 0, 0, 0x7F, 0xFF, 0xFF]), (false, 0x7F_FFFF));
    assert_eq!(A2dpSession::parse_aac_bitrate(&[9, 9, 9, 0x80, 0, 1]), (true, 1));
}

#[test]
fn endpoints_offer_aac_first() {
    assert_eq!(
        A2dpSession::sink_endpoints(),
        vec![(0, EndpointCodec::Aac), (1, EndpointCodec::Sbc)]
    );
}

#[test]
fn negotiated_codecs() {
    let choice = |kind, sample_rate, stereo| {
        A2dpSession::codec_choice(&Codec { kind, sample_rate, stereo })
    };
    assert_eq!(
        choice(CodecKind::Mpeg2_4([0; 6]), Some(48_000), Some(true)),
        Some(CodecChoice::Aac { sample_rate: 48_000, channels: 2 })
    );
    assert_eq!(
        choice(CodecKind::Sbc, Some(44_100), Some(false)),
        Some(CodecChoice::Sbc { sample_rate: 44_100, channels: 1 })
    );
    assert_eq!(
        choice(CodecKind::Sbc, Some(44_100), None),
        Some(CodecChoice::Sbc { sample_rate: 44_100, channels: 2 })
    );
    assert_eq!(choice(CodecKind::Mpeg2_4([0; 6]), None, None), None);
    assert_eq!(choice(CodecKind::Other, Some(44_100), Some(true)), None);
}

#[test]
fn a2dp_events_reach_the_decoder() {
    let (mut decoder, mut queue) = DecoderTask::channel();
    let mut c = Counters::new();
    let sbc = Codec { kind: CodecKind::Sbc, sample_rate: Some(44_100), stereo: Some(true) };
    let none = Codec { kind: CodecKind::Other, sample_rate: None, stereo: None };
    let handle = A2dpSession::handle_event;

    let r = handle(A2dpEvent::AudioCodecConfigured(sbc), &mut decoder, &mut c);
    assert!(matches!(r, A2dpOutcome::Done));
    let r = handle(A2dpEvent::AudioCodecConfigured(none), &mut decoder, &mut c);
    assert!(matches!(r, A2dpOutcome::UnsupportedCodec));
    let r = handle(
        A2dpEvent::ConnectionState(ConnectionStatus::Connected),
        &mut decoder,
        &mut c,
    );
    assert!(matches!(r, A2dpOutcome::Done));
    assert!(matches!(handle(A2dpEvent::Other, &mut decoder, &mut c), A2dpOutcome::Done));
    let r = handle(
        A2dpEvent::ConnectionState(ConnectionStatus::Disconnected),
        &mut decoder,
        &mut c,
    );
    assert!(matches!(r, A2dpOutcome::Done));
    for n in 2..FRAME_CHANNEL_DEPTH as u8 {
        let r = handle(A2dpEvent::SinkAudioData(vec![n]), &mut decoder, &mut c);
        assert!(matches!(r, A2dpOutcome::Done));
    }
    assert_eq!(c.dropped_sends, 0);
    let r = handle(A2dpEvent::SinkAudioData(vec![200]), &mut decoder, &mut c);
    assert!(matches!(
        r,
        A2dpOutcome::FrameDropped(TrySendError::Full(DecoderMsg::Frame(p))) if p == vec![200]
    ));
    assert_eq!(c.dropped_sends, 1);
    drop(decoder);

    assert!(matches!(
        queue.next(),
        Some(DecoderMsg::SwitchCodec(CodecChoice::Sbc { sample_rate: 44_100, channels: 2 }))
    ));
    assert!(matches!(queue.next(), Some(DecoderMsg::Reset)));
    for n in 2..FRAME_CHANNEL_DEPTH as u8 {
        assert!(matches!(queue.next(), Some(DecoderMsg::Frame(p)) if p == vec![n]));
    }
    assert!(queue.next().is_none());

    let (mut decoder, queue) = DecoderTask::channel();
    drop(queue);
    let r = handle(
        A2dpEvent::ConnectionState(ConnectionStatus::Disconnected),
        &mut decoder,
        &mut c,
    );
    assert!(matches!(r, A2dpOutcome::DecoderGone(DecoderMsg::Reset)));
    assert_eq!(c.dropped_sends, 1);
}

#[test]
fn boot_reconnects_before_going_discoverable() {
    let steps = boot_steps(Some(ADDR));
    assert_eq!(steps.len(), 3);
    assert!(matches!(steps[0], BootStep::ConnectA2dp(a) if a.bytes == ADDR.bytes));
    assert!(matches!(steps[1], BootStep::ConnectHfp(a) if a.bytes == ADDR.bytes));
    assert!(matches!(steps[2], BootStep::GoDiscoverable));
    let steps = boot_steps(None);
    assert!(steps.len() == 1 && matches!(steps[0], BootStep::GoDiscoverable));
}

#[test]
fn call_audio_is_doubled() {
    let frame = HfpSession::sco_frame(&[1, 2, 3, 4, 5]);
    assert_eq!(frame.format.sample_rate, 16_000);
    assert_eq!((frame.format.channels, frame.format.bits), (2, 16));
    assert_eq!(frame.samples, vec![1, 2, 1, 2, 3, 4, 3, 4]);
    assert!(HfpSession::sco_frame(&[7]).samples.is_empty());
}

#[test]
fn hands_free_events() {
    let (mut out, mut queue) = I2SAudioOutput::channel();
    let mut mic = Mic::new();
    let mut c = Counters::new();
    let mut buf = [0u8; 2];

    let r = HfpSession::handle_event(&mut out, &mut mic, HfpcEvent::RecvData(&[8, 9]), &mut buf);
    assert!(r.request_outgoing && r.filled == 0 && r.refused.is_none());
    for _ in 1..CHANNEL_DEPTH {
        let r = HfpSession::handle_event(&mut out, &mut mic, HfpcEvent::RecvData(&[1]), &mut buf);
        assert!(r.request_outgoing && r.refused.is_none());
    }
    let r = HfpSession::handle_event(&mut out, &mut mic, HfpcEvent::RecvData(&[6, 7]), &mut buf);
    assert!(r.request_outgoing);
    assert!(matches!(r.refused, Some(TrySendError::Full(f)) if f.samples == vec![6, 7, 6, 7]));
    assert_eq!(queue.next().unwrap().samples, vec![8, 9, 8, 9]);
    for _ in 1..CHANNEL_DEPTH {
        assert!(queue.next().unwrap().samples.is_empty());
    }

    let r = HfpSession::handle_event(&mut out, &mut mic, HfpcEvent::SendData, &mut buf);
    assert!(r.filled == 0 && !r.request_outgoing);
    mic.capture(&[0x0201, 0x0403], &mut c);
    let connecting = HfpcEvent::AudioState(AudioStatus::Connecting);
    HfpSession::handle_event(&mut out, &mut mic, connecting, &mut buf);
    let r = HfpSession::handle_event(&mut out, &mut mic, HfpcEvent::SendData, &mut buf);
    assert_eq!(r.filled, 2);
    assert_eq!(buf, [1, 2]);
    for status in [
        AudioStatus::Connected,
        AudioStatus::ConnectedMsbc,
        AudioStatus::Disconnected,
    ] {
        mic.capture(&[5, 5], &mut c);
        HfpSession::handle_event(&mut out, &mut mic, HfpcEvent::AudioState(status), &mut buf);
        let r = HfpSession::handle_event(&mut out, &mut mic, HfpcEvent::SendData, &mut buf);
        assert_eq!(r.filled, 0);
    }
    for event in [
        HfpcEvent::ConnectionState,
        HfpcEvent::VoiceRecognitionEnabled,
        HfpcEvent::VoiceRecognitionDisabled,
        HfpcEvent::Other,
    ] {
        let r = HfpSession::handle_event(&mut out, &mut mic, event, &mut buf);
        assert!(r.filled == 0 && !r.request_outgoing && r.refused.is_none());
    }
    assert_eq!(buf, [1, 2]);
    drop(out);
    assert!(queue.next().is_none());
}

#[test]
fn gap_stores_and_restarts() {
    let auth = |status| GapSession::handle_event(GapEvent::AuthenticationCompleted {
        addr: ADDR,
        status,
    });
    let acl = |status| GapSession::handle_event(GapEvent::AclConnected { addr: ADDR, status });
    assert!(matches!(
        auth(BtStatus::Success),
        GapAction::StorePeer(a) if a.bytes == [1, 2, 3, 4, 5, 6]
    ));
    assert!(matches!(auth(BtStatus::Other), GapAction::Nothing));
    assert!(matches!(auth(BtStatus::HciConnectionExists), GapAction::Nothing));
    assert!(matches!(
        acl(BtStatus::HciConnectionExists),
        GapAction::Restart { delay_ms: 1000 }
    ));
    assert!(matches!(acl(BtStatus::Success), GapAction::Nothing));
    let stale = GapEvent::AclConnected { addr: ADDR, status: BtStatus::HciConnectionExists };
    let bonded = GapEvent::AuthenticationCompleted { addr: ADDR, status: BtStatus::Success };
    assert!(matches!(
        GapSession::action_for(stale, true),
        GapAction::Restart { delay_ms: 1000 }
    ));
    assert!(matches!(GapSession::action_for(stale, false), GapAction::Nothing));
    for restarts in [false, true] {
        assert!(matches!(GapSession::action_for(bonded, restarts), GapAction::StorePeer(_)));
        assert!(matches!(
            GapSession::action_for(GapEvent::Other, restarts),
            GapAction::Nothing
        ));
    }
    let r = GapSession::handle_event(GapEvent::AclDisconnected { addr: ADDR });
    assert!(matches!(r, GapAction::Nothing));
    assert!(matches!(GapSession::handle_event(GapEvent::Other), GapAction::Nothing));
}

#[test]
fn stored_peer_is_read_back() {
    assert_eq!((NAMESPACE, KEY), ("bt_speaker", "last_peer"));
    let blob = PairCache::write(&ADDR);
    assert_eq!(blob, vec![1, 2, 3, 4, 5, 6]);
    assert_eq!(PairCache::read(&BlobRead::Found(blob)).unwrap().bytes, ADDR.bytes);
    assert!(PairCache::read(&BlobRead::Found(vec![1, 2, 3, 4, 5])).is_none());
    assert!(PairCache::read(&BlobRead::Found(vec![0; 7])).is_none());
    assert!(PairCache::read(&BlobRead::Missing).is_none());
    assert!(PairCache::read(&BlobRead::Failed).is_none());
}

#[test]
fn avrcp_connects_and_rearms() {
    let mut a = AvrcpController::new();
    assert_eq!(
        a.handle_event(AvrccEvent::Connected),
        vec![
            AvrccRequest::Capabilities { label: 0 },
            AvrccRequest::Metadata { label: 1 },
        ]
    );
    let offered = vec![NotificationType::TrackChanged, NotificationType::Other];
    assert_eq!(
        a.handle_event(AvrccEvent::NotificationCapabilities(offered)),
        vec![AvrccRequest::RegisterNotification {
            label: 2,
            kind: NotificationType::TrackChanged,
            interval_ms: 0,
        }]
    );
    let offered = vec![NotificationType::TrackChanged, NotificationType::Playback];
    assert_eq!(
        a.handle_event(AvrccEvent::NotificationCapabilities(offered)),
        vec![
            AvrccRequest::RegisterNotification { label: 3, kind: NotificationType::Playback, interval_ms: 0 },
            AvrccRequest::RegisterNotification { label: 4, kind: NotificationType::TrackChanged, interval_ms: 0 },
        ]
    );
    assert_eq!(
        a.handle_event(AvrccEvent::TrackChanged),
        vec![
            AvrccRequest::Metadata { label: 5 },
            AvrccRequest::RegisterNotification { label: 6, kind: NotificationType::TrackChanged, interval_ms: 0 },
        ]
    );
    assert!(a.handle_event(AvrccEvent::Disconnected).is_empty());
    assert!(a.handle_event(AvrccEvent::Other).is_empty());
    assert_eq!(
        AvrcpController::metadata_attrs(),
        [MetadataId::Title, MetadataId::Artist, MetadataId::Album, MetadataId::PlayingTime]
    );
}

#[test]
fn play_pause_follows_the_phone() {
    let mut a = AvrcpController::new();
    assert_eq!(a.play_pause().key, KeyCode::Play);
    assert_eq!(a.play_pause().key, KeyCode::Pause);
    a.handle_event(AvrccEvent::Playback(PlaybackStatus::Playing));
    assert_eq!(a.play_pause().key, KeyCode::Pause);
    a.handle_event(AvrccEvent::Playback(PlaybackStatus::Playing));
    a.handle_event(AvrccEvent::Playback(PlaybackStatus::Paused));
    assert_eq!(a.play_pause().key, KeyCode::Play);
    assert_eq!(a.next_track().key, KeyCode::Forward);
    assert_eq!(a.prev_track().key, KeyCode::Backward);
}

#[test]
fn labels_wrap_at_four_bits() {
    let mut a = AvrcpController::new();
    for n in 0..600u32 {
        assert_eq!(u32::from(a.next_label()), n % 16);
    }
}

#[test]
fn keys_are_pressed_and_released() {
    let mut a = AvrcpController::new();
    let p = a.next_track();
    assert_eq!(p.press(), KeyEvent { label: 0, key: KeyCode::Forward, pressed: true });
    assert_eq!(
        p.release(true),
        Some(KeyEvent { label: 0, key: KeyCode::Forward, pressed: false })
    );
    assert_eq!(p.release(false), None);
}

#[test]
fn console_keys() {
    let keys = [
        ('p', Command::PlayPause),
        ('P', Command::PlayPause),
        ('n', Command::NextTrack),
        ('N', Command::NextTrack),
        ('b', Command::PrevTrack),
        ('B', Command::PrevTrack),
        ('s', Command::StartVoiceRecognition),
        ('S', Command::StopVoiceRecognition),
        ('e', Command::StopVoiceRecognition),
        ('E', Command::StopVoiceRecognition),
        ('x', Command::Unmapped('x')),
    ];
    for (c, command) in keys {
        assert_eq!(Console::handle_key(c), command);
        assert_eq!(Console::on_read(ReadOutcome::Byte(c as u8)), ConsoleStep::Run(command));
    }
    assert_eq!(Console::on_read(ReadOutcome::Byte(b'\n')), ConsoleStep::Skip);
    assert_eq!(Console::on_read(ReadOutcome::Byte(b'\r')), ConsoleStep::Skip);
    assert_eq!(
        Console::on_read(ReadOutcome::Byte(0xE9)),
        ConsoleStep::Run(Command::Unmapped('\u{e9}'))
    );
    assert_eq!(Console::on_read(ReadOutcome::Empty), ConsoleStep::Sleep { ms: 50 });
    assert_eq!(Console::on_read(ReadOutcome::WouldBlock), ConsoleStep::Sleep { ms: 50 });
    assert_eq!(Console::on_read(ReadOutcome::Failed), ConsoleStep::Sleep { ms: 500 });
}

#[test]
fn downmix() {
    let mut d = Downmixer::new();
    assert_eq!(d.sink_data(&[10, 20, 255, 255, 3, 3, 9]), vec![15, 254, 2]);
    d.codec_configured(Some(false));
    assert_eq!(d.sink_data(&[10, 20, 30]), vec![10, 20, 30]);
    d.codec_configured(Some(true));
    let long = vec![200u8; 2 * DOWNMIX_BUF_SIZE + 10];
    assert_eq!(d.sink_data(&long), vec![200u8; DOWNMIX_BUF_SIZE]);
    d.codec_configured(None);
    assert_eq!(d.sink_data(&[1, 2]), vec![1, 2]);
}

#[test]
fn report_speaks_of_one_second() {
    let mut stats = Stats::new();
    let mut c = Counters::new();
    let r = stats.report(&mut c);
    assert!(!r.heap && r.audio.is_none() && r.mic.is_none());
    c.record_dropped_send();
    c.record_frame_decoded();
    c.record_frame_decoded();
    c.record_mic_clip();
    c.record_pcm_peak(9);
    c.record_mic_peak(8);
    let r = stats.report(&mut c);
    assert_eq!(
        r.audio,
        Some(AudioReport { dropped_sends: 1, i2s_errs: 0, decode_errs: 0, decoded: 2 })
    );
    assert_eq!(r.mic, Some(MicReport { clip: 1, ring_overflow: 0 }));
    assert_eq!(c, Counters::new());
    c.record_frame_decoded();
    let r = stats.report(&mut c);
    assert!(r.audio.is_none() && r.mic.is_none());
    c.record_i2s_write_err();
    c.record_decode_err();
    c.record_mic_ring_overflow();
    let r = stats.report(&mut c);
    assert_eq!(
        r.audio,
        Some(AudioReport { dropped_sends: 0, i2s_errs: 1, decode_errs: 1, decoded: 0 })
    );
    assert_eq!(r.mic, Some(MicReport { clip: 0, ring_overflow: 1 }));
    assert!(!r.heap);
    assert!(!stats.report(&mut c).heap);
    for tick in 6..=30u32 {
        let r = stats.report(&mut c);
        assert!(!r.heap && r.audio.is_none() && r.mic.is_none());
        assert_eq!(stats.tick, tick);
    }
    for tick in 31..=40u32 {
        c.record_pcm_peak(1);
        let r = stats.report(&mut c);
        assert_eq!(r.heap, tick % 5 == 0);
        assert!(r.audio.is_none() && r.mic.is_none());
    }
}

#[test]
fn counters_wrap_and_peaks_grow() {
    let mut c = Counters::new();
    c.dropped_sends = u32::MAX;
    c.record_dropped_send();
    assert_eq!(c.dropped_sends, 0);
    c.record_pcm_peak(5);
    c.record_pcm_peak(3);
    assert_eq!(c.pcm_peak_abs, 5);
    c.record_mic_peak(65_535);
    c.record_mic_peak(1);
    assert_eq!(c.mic_peak_abs, 65_535);
    let mut stats = Stats { tick: u32::MAX };
    stats.report(&mut c);
    assert_eq!(stats.tick, 0);
}
