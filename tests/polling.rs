use amscrapper_rs::error::{AnchorKind, ScrapeError};
use amscrapper_rs::music::{AMusicSongInfo, AMusicState, AMusicTimeInfo};
use amscrapper_rs::session::resolve_anchors;
use amscrapper_rs::status::{playing, status_from_readings};
use amscrapper_rs::timing::{time_from_readings, SliderReading};

fn times(current: i32, remaining: i32, total: i32) -> AMusicTimeInfo {
    AMusicTimeInfo { duration: total, remaining_duration: remaining, current_time: current, total }
}

#[test]
fn no_sources_give_zero_times() {
    assert_eq!(time_from_readings(None, None, None), Some(times(0, 0, 0)));
}

#[test]
fn labels_give_current_remaining_and_total() {
    assert_eq!(time_from_readings(Some("1:00"), Some("-2:45"), None), Some(times(60, 165, 225)));
}

#[test]
fn slider_fills_absent_labels() {
    let slider = SliderReading { minimum: 0, maximum: 225, value: 60 };
    assert_eq!(time_from_readings(None, None, Some(slider)), Some(times(60, 165, 225)));
}

#[test]
fn slider_keeps_text_duration() {
    // The duration label is not zero, so the scrubber does not replace it.
    let slider = SliderReading { minimum: 0, maximum: 225, value: 60 };
    assert_eq!(time_from_readings(None, Some("3:45"), Some(slider)), Some(times(60, 225, 225)));
}

#[test]
fn slider_never_overrides_text_times() {
    let slider = SliderReading { minimum: 0, maximum: 900, value: 500 };
    assert_eq!(
        time_from_readings(Some("0:30"), Some("-1:00"), Some(slider)),
        Some(times(30, 60, 90))
    );
}

#[test]
fn malformed_label_counts_as_zero() {
    assert_eq!(time_from_readings(Some("soon"), Some("-1:00"), None), Some(times(0, 60, 60)));
    let slider = SliderReading { minimum: 0, maximum: 200, value: 20 };
    assert_eq!(time_from_readings(Some("x"), Some("y"), Some(slider)), Some(times(20, 180, 200)));
}

#[test]
fn times_that_overflow_give_none() {
    assert_eq!(time_from_readings(Some("35791394:07"), Some("35791394:07"), None), None);
    let slider = SliderReading { minimum: 0, maximum: i32::MAX, value: -10 };
    assert_eq!(time_from_readings(None, None, Some(slider)), None);
}

#[test]
fn pause_label_means_playing() {
    assert_eq!(status_from_readings(Some("Pause"), false), Some(AMusicState { playing: true, live: false }));
    assert_eq!(status_from_readings(Some("Play"), true), Some(AMusicState { playing: false, live: true }));
    assert_eq!(status_from_readings(Some("pause"), false), Some(AMusicState { playing: false, live: false }));
}

#[test]
fn absent_control_gives_no_state() {
    assert_eq!(status_from_readings(None, true), None);
}

#[test]
fn snapshot_needs_all_three() {
    let song = AMusicSongInfo { song: "S".to_string(), artist: "A".to_string(), album: "B".to_string() };
    let state = AMusicState { playing: false, live: false };
    let t = times(1, 2, 3);
    let full = playing((Some(state), Some(song.clone()), Some(t))).unwrap();
    assert_eq!(full.0.song, "S");
    assert_eq!(full.1, state);
    assert_eq!(full.2, t);
    assert!(playing((None, Some(song.clone()), Some(t))).is_none());
    assert!(playing((Some(state), None, Some(t))).is_none());
    assert!(playing((Some(state), Some(song), None)).is_none());
}

#[test]
fn missing_status_panel_is_reported() {
    let r = resolve_anchors::<u32>(None, None);
    assert_eq!(r.unwrap_err(), ScrapeError::AnchorMissing(AnchorKind::StatusPanel));
}

#[test]
fn missing_field_panel_is_reported() {
    let r = resolve_anchors(Some(1u32), None);
    assert_eq!(r.unwrap_err(), ScrapeError::AnchorMissing(AnchorKind::FieldPanel));
}

#[test]
fn both_anchors_bind() {
    let a = resolve_anchors(Some(1u32), Some(2u32)).unwrap();
    assert_eq!(a.status_panel, 1);
    assert_eq!(a.field_panel, 2);
}
