use tunequeue::controls::now_playing_text;
use tunequeue::track::{LoopMode, PlayStatus, TrackMetadata, TrackStatus};
use tunequeue::view::{
    bar_text, clock_text, create_now_playing_view, decimal_text, filled_cell_count,
    loop_setting_text, status_icon_text, DEFAULT_THUMBNAIL,
};

fn meta(duration_ms: Option<u64>) -> TrackMetadata {
    TrackMetadata {
        title: Some("Song".to_string()),
        artist: Some("Band".to_string()),
        duration_ms,
        thumbnail: None,
        source_url: Some("https://youtu.be/x".to_string()),
    }
}

fn status(playing: PlayStatus, position_ms: u64) -> TrackStatus {
    TrackStatus { playing, position_ms, loops: LoopMode::Finite(0), volume_percent: 100 }
}

#[test]
fn decimal_and_clock_texts() {
    assert_eq!(decimal_text(0), "0");
    assert_eq!(decimal_text(36700160), "36700160");
    assert_eq!(decimal_text(u64::MAX), u64::MAX.to_string());
    assert_eq!(clock_text(0), "00:00");
    assert_eq!(clock_text(59), "00:59");
    assert_eq!(clock_text(61), "01:01");
    assert_eq!(clock_text(6000), "100:00");
}

#[test]
fn filled_cells_round_to_nearest() {
    assert_eq!(filled_cell_count(100_000, 200_000), 8);
    assert_eq!(filled_cell_count(0, 200_000), 0);
    assert_eq!(filled_cell_count(200_000, 200_000), 15);
    assert_eq!(filled_cell_count(500_000, 200_000), 15);
    assert_eq!(filled_cell_count(199_000, 200_000), 15);
    assert_eq!(filled_cell_count(10_000, 200_000), 1);
    assert_eq!(filled_cell_count(6_000, 200_000), 0);
    // shorter than a second: no progress is shown
    assert_eq!(filled_cell_count(500, 999), 0);
    assert_eq!(filled_cell_count(u64::MAX - 1, u64::MAX), 15);
}

#[test]
fn bar_shapes() {
    assert_eq!(bar_text(0), format!("`\u{1F518}{}   `", "\u{2500}".repeat(15)));
    assert_eq!(bar_text(15), format!("`{}\u{1F518}`", "\u{25AC}".repeat(15)));
    assert_eq!(
        bar_text(8),
        format!("`{}\u{1F518}{}  `", "\u{25AC}".repeat(8), "\u{2500}".repeat(7))
    );
}

#[test]
fn icons_and_loop_texts() {
    assert_eq!(status_icon_text(&PlayStatus::Play), "\u{25B6}\u{FE0F}");
    assert_eq!(status_icon_text(&PlayStatus::End), "\u{1F3C1}");
    assert_eq!(status_icon_text(&PlayStatus::Errored("boom".to_string())), "\u{2753}boom");
    assert_eq!(status_icon_text(&PlayStatus::Unknown), "\u{23F9} state unknown");
    assert_eq!(loop_setting_text(LoopMode::Infinite), "Infinite");
    assert_eq!(loop_setting_text(LoopMode::Finite(3)), "Finite(3)");
}

#[test]
fn full_view_of_a_playing_track() {
    let mut st = status(PlayStatus::Play, 100_000);
    st.volume_percent = 80;
    st.loops = LoopMode::Finite(2);
    let v = create_now_playing_view(&meta(Some(200_000)), &st);
    assert_eq!(v.title, "\u{25B6}\u{FE0F} Now Playing");
    assert_eq!(v.description, "**Song**\nBand");
    assert_eq!(v.thumbnail, DEFAULT_THUMBNAIL);
    assert_eq!(
        v.progress,
        format!("`{}\u{1F518}{}  ` `01:40 / 03:20`", "\u{25AC}".repeat(8), "\u{2500}".repeat(7))
    );
    assert_eq!(v.volume, "80%");
    assert_eq!(v.looping, "Finite(2)");
}

#[test]
fn view_of_a_track_without_metadata() {
    let m = TrackMetadata {
        title: None,
        artist: None,
        duration_ms: None,
        thumbnail: Some("https://img/x.png".to_string()),
        source_url: None,
    };
    let v = create_now_playing_view(&m, &status(PlayStatus::Pause, 5_000));
    assert_eq!(v.title, "\u{23F8}\u{FE0F} Now Playing");
    assert_eq!(v.description, "**Unknown Title**\nUnknown Artist");
    assert_eq!(v.thumbnail, "https://img/x.png");
    assert_eq!(v.progress, format!("`\u{1F518}{}   ` `00:05 / 00:00`", "\u{2500}".repeat(15)));
    assert_eq!(v.volume, "100%");
    assert_eq!(v.looping, "Finite(0)");
}

#[test]
fn first_status_text() {
    assert_eq!(now_playing_text(&meta(None)), "Now playing: Song - Band");
}
