//! Transport control.
//!
//! Keys are sent to the phone as a press and a release. Notifications are
//! one-shot: each is asked for again once it has fired. The local idea of
//! whether the phone plays follows its notifications, so that the play/pause
//! key is right even when the phone was paused on its own screen.

use vstd::prelude::*;

verus! {

/// Time between press and release of a key.
pub const PASSTHROUGH_RELEASE_MS: u64 = 80;

/// Interval of reports on the playback position: none are asked for.
pub const REPORT_INTERVAL_MS: u32 = 0;

#[derive(Debug, Clone, Copy, PartialEq, Eq, Structural)]
pub enum KeyCode {
    Play,
    Pause,
    Forward,
    Backward,
}

#[derive(Debug, Clone, Copy, PartialEq, Eq, Structural)]
pub enum NotificationType {
    Playback,
    TrackChanged,
    Other,
}

#[derive(Debug, Clone, Copy, PartialEq, Eq, Structural)]
pub enum PlaybackStatus {
    Stopped,
    Playing,
    Paused,
    SeekForward,
    SeekBackward,
    Error,
}

#[derive(Debug, Clone, Copy, PartialEq, Eq, Structural)]
pub enum MetadataId {
    Title,
    Artist,
    Album,
    PlayingTime,
}

/// What the phone reports.
pub enum AvrccEvent {
    Connected,
    Disconnected,
    /// The notifications that the phone offers.
    NotificationCapabilities(Vec<NotificationType>),
    Playback(PlaybackStatus),
    TrackChanged,
    Other,
}

/// What is asked of the phone, each with its transaction label.
#[derive(Debug, Clone, Copy, PartialEq, Eq, Structural)]
pub enum AvrccRequest {
    Capabilities { label: u8 },
    /// The attributes of [`AvrcpController::metadata_attrs`].
    Metadata { label: u8 },
    RegisterNotification { label: u8, kind: NotificationType, interval_ms: u32 },
}

/// A key going down or up.
#[derive(Debug, Clone, Copy, PartialEq, Eq, Structural)]
pub struct KeyEvent {
    pub label: u8,
    pub key: KeyCode,
    pub pressed: bool,
}

/// A key to be pressed and released, under one label.
#[derive(Debug, Clone, Copy, PartialEq, Eq, Structural)]
pub struct Passthrough {
    pub label: u8,
    pub key: KeyCode,
}

impl Passthrough {
    pub fn press(&self) -> (r: KeyEvent)
        ensures
            r == (KeyEvent { label: self.label, key: self.key, pressed: true }),
    {
        KeyEvent { label: self.label, key: self.key, pressed: true }
    }

    /// What follows the press after [`PASSTHROUGH_RELEASE_MS`]: the release, or
    /// nothing when the press could not be sent.
    pub fn release(&self, press_sent: bool) -> (r: Option<KeyEvent>)
        ensures
            r == (if press_sent {
                Some(KeyEvent { label: self.label, key: self.key, pressed: false })
            } else {
                None
            }),
    {
        if press_sent {
            Some(KeyEvent { label: self.label, key: self.key, pressed: false })
        } else {
            None
        }
    }
}

/// The label of the `k`-th transaction from now, after `issued` of them: four
/// bits, going round.
pub open spec fn label_after(issued: u8, k: nat) -> u8 {
    ((issued + k) % 16) as u8
}

/// The transaction count after `k` more, modulo 256.
pub open spec fn issued_after(issued: u8, k: nat) -> u8 {
    ((issued + k) % 256) as u8
}

/// The notifications that are wanted, of those on offer.
pub open spec fn wanted(offered: Seq<NotificationType>) -> Seq<NotificationType> {
    let playback = if offered.contains(NotificationType::Playback) {
        seq![NotificationType::Playback]
    } else {
        Seq::empty()
    };
    let track_changed = if offered.contains(NotificationType::TrackChanged) {
        seq![NotificationType::TrackChanged]
    } else {
        Seq::empty()
    };
    playback + track_changed
}

/// What an event makes the controller ask for.
pub open spec fn requests_for(issued: u8, event: AvrccEvent) -> Seq<AvrccRequest> {
    match event {
        AvrccEvent::Connected => seq![
            AvrccRequest::Capabilities { label: label_after(issued, 0) },
            AvrccRequest::Metadata { label: label_after(issued, 1) },
        ],
        AvrccEvent::NotificationCapabilities(offered) => wanted(offered@).map(
            |i: int, kind: NotificationType|
                AvrccRequest::RegisterNotification {
                    label: label_after(issued, i as nat),
                    kind,
                    interval_ms: REPORT_INTERVAL_MS,
                },
        ),
        AvrccEvent::Playback(_) => seq![
            AvrccRequest::RegisterNotification {
                label: label_after(issued, 0),
                kind: NotificationType::Playback,
                interval_ms: REPORT_INTERVAL_MS,
            },
        ],
        AvrccEvent::TrackChanged => seq![
            AvrccRequest::Metadata { label: label_after(issued, 0) },
            AvrccRequest::RegisterNotification {
                label: label_after(issued, 1),
                kind: NotificationType::TrackChanged,
                interval_ms: REPORT_INTERVAL_MS,
            },
        ],
        AvrccEvent::Disconnected => Seq::empty(),
        AvrccEvent::Other => Seq::empty(),
    }
}

/// Whether the phone is thought to play after an event.
pub open spec fn playing_after(playing: bool, event: AvrccEvent) -> bool {
    match event {
        AvrccEvent::Playback(status) => status == PlaybackStatus::Playing,
        _ => playing,
    }
}

/// The key that toggles playback.
pub open spec fn toggle_key(playing: bool) -> KeyCode {
    if playing {
        KeyCode::Pause
    } else {
        KeyCode::Play
    }
}

fn offers(offered: &Vec<NotificationType>, kind: NotificationType) -> (r: bool)
    ensures
        r == offered@.contains(kind),
{
    let mut i: usize = 0;
    while i < offered.len()
        invariant
            i <= offered@.len(),
            forall|j: int| 0 <= j < i ==> offered@[j] != kind,
        decreases offered@.len() - i,
    {
        if offered[i] == kind {
            assert(offered@[i as int] == kind);
            return true;
        }
        i = i + 1;
    }
    false
}

/// The controller's state: transactions issued so far, modulo 256, and whether
/// the phone is thought to play.
#[derive(Debug, Clone, Copy, PartialEq, Eq, Structural)]
pub struct AvrcpController {
    pub issued: u8,
    pub playing: bool,
}

impl AvrcpController {
    pub fn new() -> (r: Self)
        ensures
            r == (AvrcpController { issued: 0, playing: false }),
    {
        AvrcpController { issued: 0, playing: false }
    }

    /// The next transaction label.
    pub fn next_label(&mut self) -> (label: u8)
        ensures
            label == label_after(old(self).issued, 0),
            *final(self) == (AvrcpController {
                issued: issued_after(old(self).issued, 1),
                ..*old(self)
            }),
    {
        let label: u8 = self.issued % 16;
        self.issued = self.issued.wrapping_add(1);
        label
    }

    /// A key to be sent.
    pub fn passthrough(&mut self, key: KeyCode) -> (r: Passthrough)
        ensures
            r == (Passthrough { label: label_after(old(self).issued, 0), key }),
            *final(self) == (AvrcpController {
                issued: issued_after(old(self).issued, 1),
                ..*old(self)
            }),
    {
        let label = self.next_label();
        Passthrough { label, key }
    }

    /// Toggles between play and pause, by the last known state. The phone's
    /// own notification corrects the guess if the key did not take.
    pub fn play_pause(&mut self) -> (r: Passthrough)
        ensures
            r.label == label_after(old(self).issued, 0),
            r.key == toggle_key(old(self).playing),
            *final(self) == (AvrcpController {
                issued: issued_after(old(self).issued, 1),
                playing: !old(self).playing,
            }),
    {
        let was_playing = self.playing;
        let key = if was_playing {
            KeyCode::Pause
        } else {
            KeyCode::Play
        };
        let r = self.passthrough(key);
        self.playing = !was_playing;
        r
    }

    pub fn next_track(&mut self) -> (r: Passthrough)
        ensures
            r == (Passthrough { label: label_after(old(self).issued, 0), key: KeyCode::Forward }),
            *final(self) == (AvrcpController {
                issued: issued_after(old(self).issued, 1),
                ..*old(self)
            }),
    {
        self.passthrough(KeyCode::Forward)
    }

    pub fn prev_track(&mut self) -> (r: Passthrough)
        ensures
            r == (Passthrough { label: label_after(old(self).issued, 0), key: KeyCode::Backward }),
            *final(self) == (AvrcpController {
                issued: issued_after(old(self).issued, 1),
                ..*old(self)
            }),
    {
        self.passthrough(KeyCode::Backward)
    }

    /// The attributes that are asked for on connect and on each new track.
    pub fn metadata_attrs() -> (r: [MetadataId; 4])
        ensures
            r@ == seq![
                MetadataId::Title,
                MetadataId::Artist,
                MetadataId::Album,
                MetadataId::PlayingTime,
            ],
    {
        let r = [MetadataId::Title, MetadataId::Artist, MetadataId::Album, MetadataId::PlayingTime];
        assert(r@ == seq![
            MetadataId::Title,
            MetadataId::Artist,
            MetadataId::Album,
            MetadataId::PlayingTime,
        ]);
        r
    }

    /// Takes an event and gives the requests that it calls for, in order.
    pub fn handle_event(&mut self, event: AvrccEvent) -> (requests: Vec<AvrccRequest>)
        ensures
            requests@ == requests_for(old(self).issued, event),
            final(self).issued == issued_after(old(self).issued, requests@.len()),
            final(self).playing == playing_after(old(self).playing, event),
    {
        let mut requests: Vec<AvrccRequest> = Vec::new();
        match &event {
            AvrccEvent::Connected => {
                self.request_capabilities(&mut requests);
                self.request_metadata(&mut requests);
            },
            AvrccEvent::NotificationCapabilities(offered) => {
                if offers(offered, NotificationType::Playback) {
                    self.register_notification(NotificationType::Playback, &mut requests);
                }
                if offers(offered, NotificationType::TrackChanged) {
                    self.register_notification(NotificationType::TrackChanged, &mut requests);
                }
            },
            AvrccEvent::Playback(status) => {
                self.playing = *status == PlaybackStatus::Playing;
                self.register_notification(NotificationType::Playback, &mut requests);
            },
            AvrccEvent::TrackChanged => {
                self.request_metadata(&mut requests);
                self.register_notification(NotificationType::TrackChanged, &mut requests);
            },
            AvrccEvent::Disconnected => {},
            AvrccEvent::Other => {},
        }
        assert(requests@ =~= requests_for(old(self).issued, event));
        requests
    }

    fn request_capabilities(&mut self, requests: &mut Vec<AvrccRequest>)
        ensures
            final(requests)@ == old(requests)@.push(
                AvrccRequest::Capabilities { label: label_after(old(self).issued, 0) },
            ),
            *final(self) == (AvrcpController {
                issued: issued_after(old(self).issued, 1),
                ..*old(self)
            }),
    {
        let label = self.next_label();
        requests.push(AvrccRequest::Capabilities { label });
    }

    fn request_metadata(&mut self, requests: &mut Vec<AvrccRequest>)
        ensures
            final(requests)@ == old(requests)@.push(
                AvrccRequest::Metadata { label: label_after(old(self).issued, 0) },
            ),
            *final(self) == (AvrcpController {
                issued: issued_after(old(self).issued, 1),
                ..*old(self)
            }),
    {
        let label = self.next_label();
        requests.push(AvrccRequest::Metadata { label });
    }

    fn register_notification(
        &mut self,
        kind: NotificationType,
        requests: &mut Vec<AvrccRequest>,
    )
        ensures
            final(requests)@ == old(requests)@.push(
                AvrccRequest::RegisterNotification {
                    label: label_after(old(self).issued, 0),
                    kind,
                    interval_ms: REPORT_INTERVAL_MS,
                },
            ),
            *final(self) == (AvrcpController {
                issued: issued_after(old(self).issued, 1),
                ..*old(self)
            }),
    {
        let label = self.next_label();
        requests.push(
            AvrccRequest::RegisterNotification { label, kind, interval_ms: REPORT_INTERVAL_MS },
        );
    }
}

/// A label is four bits, and no two of sixteen transactions in a row share one,
/// whatever the count stands at.
pub proof fn law_labels_are_distinct(issued: u8, j: nat, k: nat)
    requires
        j < k < 16,
    ensures
        label_after(issued, j) < 16,
        label_after(issued, j) != label_after(issued, k),
{
}

/// Labels go on where they left off: the count may wrap without a label being
/// skipped.
pub proof fn law_labels_go_round(issued: u8, j: nat, k: nat)
    ensures
        label_after(issued_after(issued, j), k) == label_after(issued, j + k),
{
    let sum = issued + j;
    assert(sum == 256 * (sum / 256) + sum % 256);
    assert((sum % 256 + k) % 16 == (sum + k) % 16);
}

/// The toggle follows the phone: once it has reported its state, the key pauses
/// it exactly if it plays, whatever was thought before. No other event changes
/// the key.
pub proof fn law_toggle_follows_the_phone(playing: bool, status: PlaybackStatus, other: AvrccEvent)
    requires
        !(other is Playback),
    ensures
        toggle_key(playing_after(playing, AvrccEvent::Playback(status))) == (if status
            == PlaybackStatus::Playing {
            KeyCode::Pause
        } else {
            KeyCode::Play
        }),
        toggle_key(playing_after(playing, other)) == toggle_key(playing),
        toggle_key(!playing) != toggle_key(playing),
{
}

/// A notification that fires is asked for again, once.
pub proof fn law_notifications_are_rearmed(issued: u8, status: PlaybackStatus)
    ensures
        requests_for(issued, AvrccEvent::Playback(status)).filter(
            |r: AvrccRequest| r is RegisterNotification,
        ) == seq![
            AvrccRequest::RegisterNotification {
                label: label_after(issued, 0),
                kind: NotificationType::Playback,
                interval_ms: REPORT_INTERVAL_MS,
            },
        ],
        requests_for(issued, AvrccEvent::TrackChanged).filter(
            |r: AvrccRequest| r is RegisterNotification,
        ) == seq![
            AvrccRequest::RegisterNotification {
                label: label_after(issued, 1),
                kind: NotificationType::TrackChanged,
                interval_ms: REPORT_INTERVAL_MS,
            },
        ],
{
    let p = |r: AvrccRequest| r is RegisterNotification;
    let playback = requests_for(issued, AvrccEvent::Playback(status));
    let track = requests_for(issued, AvrccEvent::TrackChanged);
    reveal_with_fuel(Seq::filter, 3);
    assert(playback.drop_last() =~= Seq::empty());
    assert(track.drop_last() =~= seq![track[0]]);
    assert(track.drop_last().drop_last() =~= Seq::empty());
    assert(playback.filter(p) =~= seq![playback[0]]);
    assert(track.filter(p) =~= seq![track[1]]);
}

/// Labels and the transaction count go up by one with each transaction, in four
/// bits and in eight.
pub proof fn law_labels_count_up(issued: u8, k: nat)
    ensures
        label_after(issued, 0) == issued % 16,
        label_after(issued, k + 1) == (if label_after(issued, k) == 15 {
            0
        } else {
            label_after(issued, k) + 1
        }),
        issued_after(issued, 0) == issued,
        issued_after(issued, k + 1) == (if issued_after(issued, k) == 255 {
            0
        } else {
            issued_after(issued, k) + 1
        }),
{
}

/// The phone plays exactly after it reported so, and the key is the one that
/// changes that.
pub proof fn law_toggle_key_is_the_opposite(playing: bool, status: PlaybackStatus)
    ensures
        playing_after(playing, AvrccEvent::Playback(PlaybackStatus::Playing)),
        status != PlaybackStatus::Playing ==> !playing_after(playing, AvrccEvent::Playback(status)),
        playing_after(playing, AvrccEvent::Connected) == playing,
        playing_after(playing, AvrccEvent::Disconnected) == playing,
        playing_after(playing, AvrccEvent::TrackChanged) == playing,
        playing_after(playing, AvrccEvent::Other) == playing,
        toggle_key(true) == KeyCode::Pause,
        toggle_key(false) == KeyCode::Play,
{
}

/// A new connection asks for the notifications on offer and for the metadata,
/// in that order. A disconnect, and any other event, asks for nothing.
pub proof fn law_connection_asks_for_both(issued: u8)
    ensures
        ({
            let requests = requests_for(issued, AvrccEvent::Connected);
            &&& requests.len() == 2
            &&& requests[0] matches AvrccRequest::Capabilities { label } && label == issued % 16
            &&& requests[1] matches AvrccRequest::Metadata { label } && label == (issued + 1) % 16
        }),
        requests_for(issued, AvrccEvent::Disconnected).len() == 0,
        requests_for(issued, AvrccEvent::Other).len() == 0,
{
}

/// A new track asks for its metadata, then for the next such notification. A
/// change of playback asks for the next such notification.
pub proof fn law_changes_ask_again(issued: u8, status: PlaybackStatus)
    ensures
        ({
            let requests = requests_for(issued, AvrccEvent::TrackChanged);
            &&& requests.len() == 2
            &&& requests[0] matches AvrccRequest::Metadata { label } && label == issued % 16
            &&& requests[1] matches AvrccRequest::RegisterNotification { label, kind, interval_ms }
                && label == (issued + 1) % 16 && kind is TrackChanged && interval_ms == 0
        }),
        ({
            let requests = requests_for(issued, AvrccEvent::Playback(status));
            &&& requests.len() == 1
            &&& requests[0] matches AvrccRequest::RegisterNotification { label, kind, interval_ms }
                && label == issued % 16 && kind is Playback && interval_ms == 0
        }),
{
}

/// Of the notifications on offer, playback and track changes are asked for, once
/// each and in this order, under labels that follow each other. No other is.
pub proof fn law_offered_notifications_are_asked_for(issued: u8, offered: Vec<NotificationType>)
    ensures
        ({
            let requests = requests_for(issued, AvrccEvent::NotificationCapabilities(offered));
            let playback = offered@.contains(NotificationType::Playback);
            let track = offered@.contains(NotificationType::TrackChanged);
            &&& requests.len() == (if playback {
                1int
            } else {
                0
            }) + (if track {
                1int
            } else {
                0
            })
            &&& playback ==> requests[0] == (AvrccRequest::RegisterNotification {
                label: (issued % 16) as u8,
                kind: NotificationType::Playback,
                interval_ms: 0,
            })
            &&& track ==> requests.last() == (AvrccRequest::RegisterNotification {
                label: (if playback {
                    (issued + 1) % 16
                } else {
                    issued as int % 16
                }) as u8,
                kind: NotificationType::TrackChanged,
                interval_ms: 0,
            })
        }),
{
}

/// A key is held for 80 ms, and no reports on the playback position are asked
/// for.
pub proof fn law_transport_times()
    ensures
        PASSTHROUGH_RELEASE_MS == 80,
        REPORT_INTERVAL_MS == 0,
{
}

} // verus!
