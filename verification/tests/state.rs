use capture_transfer::error::CaptureTransferError;
use capture_transfer::model::{PixelFormat, SourceDesc, SourceId, SourceKind, TrackDesc, TrackType, VideoTrackDesc};
use capture_transfer::state::{Event, EventKind, SessionState};

fn window_source(label: &str) -> SourceDesc {
    SourceDesc { kind: SourceKind::Window, label: label.to_string() }
}

fn bgra_track(width: u32, height: u32) -> TrackDesc {
    TrackDesc::Video(VideoTrackDesc { width, height, pixel_format: PixelFormat::Bgra8Unorm })
}

#[test]
fn registering_sources_allocates_stable_nonzero_ids() {
    let mut session = SessionState::new();

    let first = session.register_source(window_source("Terminal")).unwrap();
    let second = session.register_source(window_source("Preview")).unwrap();

    assert_eq!(first, SourceId::new(1));
    assert_eq!(second, SourceId::new(2));
    assert_ne!(first, second);
}

#[test]
fn registering_video_track_requires_existing_source() {
    let mut session = SessionState::new();

    let err = session.register_track(SourceId::new(404), bgra_track(640, 480)).unwrap_err();

    assert_eq!(err, CaptureTransferError::UnknownSource { source_id: SourceId::new(404) });
}

#[test]
fn registering_video_track_records_source_relationship() {
    let mut session = SessionState::new();
    let source = session.register_source(window_source("Terminal")).unwrap();

    let track = session.register_track(source, bgra_track(800, 600)).unwrap();
    let registration = session.track(track).unwrap();

    assert_eq!(registration.source_id, source);
    assert_eq!(registration.desc.track_type(), TrackType::Video);
}

#[test]
fn updating_source_and_track_emit_replayable_events() {
    let mut session = SessionState::new();
    let source = session.register_source(window_source("Terminal")).unwrap();
    let track = session.register_track(source, bgra_track(800, 600)).unwrap();

    session.update_source(source, window_source("Terminal - vim")).unwrap();
    session.update_track(track, bgra_track(1024, 768)).unwrap();

    let events = session.replay_events();

    assert_eq!(
        events,
        vec![
            Event::source_registered(source, window_source("Terminal")),
            Event::track_registered(track, source, bgra_track(800, 600)),
            Event::source_updated(source, window_source("Terminal - vim")),
            Event::track_updated(track, source, bgra_track(1024, 768)),
        ]
    );
}

#[test]
fn unregistering_source_removes_attached_tracks_and_emits_terminal_event() {
    let mut session = SessionState::new();
    let source = session.register_source(window_source("Terminal")).unwrap();
    let track = session.register_track(source, bgra_track(800, 600)).unwrap();

    session.unregister_source(source).unwrap();

    assert!(session.source(source).is_err());
    assert!(session.track(track).is_err());
    assert_eq!(session.replay_events().last().map(Event::kind), Some(EventKind::SourceUnregistered));
}

#[test]
fn unknown_ids_report_their_own_errors() {
    let mut session = SessionState::new();
    assert_eq!(
        session.update_source(SourceId::new(3), window_source("x")).unwrap_err().to_message(),
        "unknown source id SourceId(3)"
    );
    let missing = capture_transfer::model::TrackId::new(9);
    assert_eq!(session.update_track(missing, bgra_track(1, 1)).unwrap_err().to_message(), "unknown track id TrackId(9)");
    assert_eq!(session.unregister_source(SourceId::new(1)), Err(CaptureTransferError::UnknownSource { source_id: SourceId::new(1) }));
}

#[test]
fn replay_log_only_grows_and_track_ids_count_registrations() {
    let mut session = SessionState::new();
    let start = session.replay_events().to_vec();
    let source = session.register_source(window_source("Terminal")).unwrap();
    let first = session.register_track(source, bgra_track(640, 480)).unwrap();
    assert!(session.register_track(SourceId::new(404), bgra_track(1, 1)).is_err());
    let after_failure = session.replay_events().len();
    let second = session.register_track(source, bgra_track(800, 600)).unwrap();

    assert_eq!(first.get(), 1);
    assert_eq!(second.get(), 2);
    assert_eq!(after_failure, 2);
    let events = session.replay_events();
    assert_eq!(events.len(), 3);
    assert_eq!(&events[..start.len()], &start[..]);
    assert_eq!(events.iter().filter(|event| event.kind() == EventKind::TrackRegistered).count(), 2);
}
