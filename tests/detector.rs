use jackson_wake::wake_word::ListeningState;
use jackson_wake::{Recognition, WakeOutcome, WakeWordDetector};

fn nothing() -> WakeOutcome {
    WakeOutcome { wake_word: None, opened_window: None }
}

#[test]
fn new_detector_is_idle() {
    let d = WakeWordDetector::new();
    assert_eq!(
        d.state(),
        ListeningState {
            wake_word_active: false,
            follow_up_active: false,
            loop_running: false,
            follow_up_window: 0
        }
    );
}

#[test]
fn stop_when_idle_changes_nothing() {
    let mut d = WakeWordDetector::new();
    let before = d.state();
    d.stop_listening();
    assert_eq!(d.state(), before);
    d.stop_listening();
    assert_eq!(d.state(), before);
}

#[test]
fn start_when_listening_spawns_nothing() {
    let mut d = WakeWordDetector::new();
    assert!(d.start_listening());
    let before = d.state();
    assert!(!d.start_listening());
    assert!(!d.start_listening());
    assert_eq!(d.state(), before);
}

#[test]
fn restart_before_loop_exit_reuses_the_loop() {
    let mut d = WakeWordDetector::new();
    let mut spawned = 0;
    if d.start_listening() {
        spawned += 1;
    }
    assert!(d.keep_polling());
    d.stop_listening();
    // The loop is still inside a recognition attempt when the host restarts.
    if d.start_listening() {
        spawned += 1;
    }
    assert_eq!(spawned, 1);
    assert!(d.keep_polling());
    d.stop_listening();
    assert!(!d.keep_polling());
    assert!(!d.state().loop_running);
    if d.start_listening() {
        spawned += 1;
    }
    assert_eq!(spawned, 2);
}

#[test]
fn setup_failure_returns_to_idle() {
    let mut d = WakeWordDetector::new();
    assert!(d.start_listening());
    d.setup_failed();
    assert!(!d.is_listening());
    assert!(!d.state().loop_running);
    assert!(d.start_listening());
}

#[test]
fn fake_engine_fires_callback_once() {
    // The engine yields the wake phrase once, then only timeouts.
    let mut engine: Vec<Recognition> = vec![Recognition::Phrase("hey jackson".to_string())];
    for _ in 0..50 {
        engine.push(Recognition::Timeout);
    }
    let mut d = WakeWordDetector::new();
    let mut calls: Vec<usize> = Vec::new();
    assert!(d.start_listening());
    for outcome in engine.iter() {
        assert!(d.keep_polling());
        let r = d.on_recognition(outcome);
        if let Some(index) = r.wake_word {
            calls.push(index);
        }
    }
    assert_eq!(calls, vec![0]);
    d.stop_listening();
    assert!(!d.keep_polling());
}

#[test]
fn recognition_without_wake_phrase_does_nothing() {
    let mut d = WakeWordDetector::new();
    d.start_listening();
    let before = d.state();
    assert_eq!(d.on_recognition(&Recognition::Phrase("hey jason".to_string())), nothing());
    assert_eq!(d.on_recognition(&Recognition::Timeout), nothing());
    assert_eq!(d.on_recognition(&Recognition::Failed), nothing());
    assert_eq!(d.state(), before);
}

#[test]
fn wake_phrase_in_sentence_fires_index_zero() {
    let mut d = WakeWordDetector::new();
    d.start_listening();
    let r = d.on_recognition(&Recognition::Phrase("please say HEY JACKSON now".to_string()));
    assert_eq!(r, WakeOutcome { wake_word: Some(0), opened_window: Some(1) });
    assert!(d.is_following_up());
}

#[test]
fn phrase_after_stop_is_ignored() {
    let mut d = WakeWordDetector::new();
    d.start_listening();
    d.stop_listening();
    assert_eq!(d.on_phrase_folded("hey jackson"), nothing());
    assert!(!d.is_following_up());
}

#[test]
fn second_wake_keeps_the_open_window() {
    let mut d = WakeWordDetector::new();
    d.start_listening();
    assert_eq!(
        d.on_phrase_folded("hey jackson"),
        WakeOutcome { wake_word: Some(0), opened_window: Some(1) }
    );
    assert_eq!(
        d.on_phrase_folded("hey jackson again"),
        WakeOutcome { wake_word: Some(0), opened_window: None }
    );
    assert_eq!(d.state().follow_up_window, 1);
}

#[test]
fn stop_phrase_closes_follow_up() {
    let mut d = WakeWordDetector::new();
    d.start_listening();
    d.on_phrase_folded("hey jackson");
    assert!(!d.on_utterance("what time is it"));
    assert!(d.is_following_up());
    assert!(d.on_utterance("OK Goodbye"));
    assert!(!d.is_following_up());
    // The window's timer elapsing later changes nothing.
    let before = d.state();
    assert!(!d.end_follow_up(1));
    assert_eq!(d.state(), before);
    assert!(d.is_listening());
}

#[test]
fn timer_closes_follow_up() {
    let mut d = WakeWordDetector::new();
    d.start_listening();
    d.on_phrase_folded("hey jackson");
    assert!(d.end_follow_up(1));
    assert!(!d.is_following_up());
    assert!(d.is_listening());
}

#[test]
fn stale_timer_leaves_new_window_open() {
    let mut d = WakeWordDetector::new();
    d.start_listening();
    d.on_phrase_folded("hey jackson");
    assert!(d.on_utterance_folded("bye"));
    let r = d.on_phrase_folded("hey jackson");
    assert_eq!(r.opened_window, Some(2));
    assert!(!d.end_follow_up(1));
    assert!(d.is_following_up());
    assert!(d.end_follow_up(2));
    assert!(!d.is_following_up());
}

#[test]
fn stop_clears_both_flags() {
    let mut d = WakeWordDetector::new();
    d.start_listening();
    d.on_phrase_folded("hey jackson");
    d.stop_listening();
    assert!(!d.is_listening());
    assert!(!d.is_following_up());
}
