use jackson_wake::placement::{
    resize_rate_limited, top_center_position, REPOSITION_INTERVAL_MS, RESIZE_INTERVAL_MS, TOP_MARGIN,
};
use jackson_wake::SpeechRecognizer;

#[test]
fn window_is_centred_below_the_top() {
    assert_eq!(top_center_position(0, 0, 1920, 480), (720, 50));
    assert_eq!(top_center_position(1920, 30, 2560, 480), (2960, 80));
    assert_eq!(TOP_MARGIN, 50);
}

#[test]
fn wider_window_rounds_toward_zero() {
    assert_eq!(top_center_position(100, 20, 300, 480), (10, 70));
    assert_eq!(top_center_position(100, 20, 301, 480), (11, 70));
    assert_eq!(top_center_position(0, -10, 301, 480), (-89, 40));
}

#[test]
fn delegated_recognizer_always_succeeds() {
    let r = SpeechRecognizer::new().unwrap();
    assert_eq!(r.start_listening(|_text: String| {}), Ok(()));
    r.stop_listening();
}

#[test]
fn resizes_closer_than_the_interval_are_refused() {
    assert!(resize_rate_limited(99, RESIZE_INTERVAL_MS));
    assert!(!resize_rate_limited(100, RESIZE_INTERVAL_MS));
    assert!(resize_rate_limited(299, REPOSITION_INTERVAL_MS));
    assert!(!resize_rate_limited(1000, REPOSITION_INTERVAL_MS));
}
