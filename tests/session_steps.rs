use tunequeue::session::{Origin, PlaybackError, Session, Step};
use tunequeue::track::TrackMetadata;

fn meta(title: &str) -> TrackMetadata {
    TrackMetadata {
        title: Some(title.to_string()),
        artist: Some("Artist".to_string()),
        duration_ms: Some(180_000),
        thumbnail: None,
        source_url: None,
    }
}

fn resolve_of(step: Step<&'static str>) -> &'static str {
    match step {
        Step::Resolve(d) => d,
        other => panic!("expected a track to resolve, got {:?}", other),
    }
}

#[test]
fn failed_resolutions_are_skipped_on_track_end() {
    let mut s: Session<&'static str, u64> = Session::new();
    s.set_status_message(1);
    s.start_or_enqueue(vec!["X", "A", "B", "C"], false);
    s.resolved(meta("X"));
    assert_eq!(s.snapshot(), &["A", "B", "C"]);

    assert_eq!(resolve_of(s.on_track_end()), "A");
    assert_eq!(resolve_of(s.resolution_failed(Origin::TrackEnd)), "B");
    assert_eq!(resolve_of(s.resolution_failed(Origin::TrackEnd)), "C");
    assert!(matches!(s.resolved(meta("C")), Step::Install { create_status: false }));
    assert_eq!(s.current().unwrap().title.as_deref(), Some("C"));
    assert_eq!(s.queue_len(), 0);
}

#[test]
fn exhaustion_clears_current_then_request_starts_fresh() {
    let mut s: Session<&'static str, u64> = Session::new();
    s.start_or_enqueue(vec!["A"], false);
    assert!(matches!(s.resolved(meta("A")), Step::Install { create_status: true }));
    s.set_status_message(7);
    assert!(s.has_current());
    assert!(matches!(s.on_track_end(), Step::Exhausted));
    assert!(s.current().is_none());
    assert!(!s.has_current());
    assert_eq!(s.status_message(), Some(&7));

    assert_eq!(resolve_of(s.start_or_enqueue(vec!["N", "M"], false)), "N");
    assert_eq!(s.snapshot(), &["M"]);
    assert!(matches!(s.resolved(meta("N")), Step::Install { create_status: false }));
    assert_eq!(s.current().unwrap().title.as_deref(), Some("N"));
}

#[test]
fn request_with_nothing_playable_fails() {
    let mut s: Session<&'static str, u64> = Session::new();
    assert!(matches!(
        s.start_or_enqueue(vec![], false),
        Step::Failed(PlaybackError::NoPlayableTrack)
    ));
    assert_eq!(resolve_of(s.start_or_enqueue(vec!["A"], true)), "A");
    assert!(matches!(
        s.resolution_failed(Origin::Request),
        Step::Failed(PlaybackError::NoPlayableTrack)
    ));
    assert!(s.current().is_none());
}

#[test]
fn failed_request_keeps_current_track() {
    let mut s: Session<&'static str, u64> = Session::new();
    s.start_or_enqueue(vec!["A"], false);
    s.resolved(meta("A"));
    assert!(matches!(s.start_or_enqueue(vec![], true), Step::Failed(_)));
    assert_eq!(s.current().unwrap().title.as_deref(), Some("A"));
}

#[test]
fn additive_request_queues_behind_waiting_tracks() {
    let mut s: Session<&'static str, u64> = Session::new();
    s.start_or_enqueue(vec!["A", "B"], false);
    s.resolved(meta("A"));
    assert_eq!(resolve_of(s.start_or_enqueue(vec!["C", "D"], true)), "B");
    assert_eq!(s.snapshot(), &["C", "D"]);
}

#[test]
fn session_shuffle_keeps_waiting_tracks() {
    let mut s: Session<u32, u64> = Session::new();
    s.start_or_enqueue((0..20).collect(), false);
    s.shuffle();
    let mut v = s.snapshot().to_vec();
    v.sort();
    assert_eq!(v, (1..20).collect::<Vec<u32>>());
}

#[test]
fn error_messages() {
    assert_eq!(PlaybackError::NoPlayableTrack.message(), "No tracks found");
    assert_eq!(
        PlaybackError::NotConnected.message(),
        "Join a voice channel before invoking this command"
    );
}
