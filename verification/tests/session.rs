use audio_bridge::bridge::AudioBridge;
use audio_bridge::bridge::StartError;
use audio_bridge::sim::SimCaptureEngine;
use audio_bridge::sim::SimRecognitionEngine;

type Bridge = AudioBridge<SimRecognitionEngine, SimCaptureEngine>;

fn ready_bridge() -> Bridge {
    let rec = SimRecognitionEngine::new(true, true, true);
    let cap = SimCaptureEngine::new(true, true);
    AudioBridge::init(rec, cap)
}

#[test]
fn partials_then_final_discards_partials() {
    let mut bridge = ready_bridge();
    assert!(bridge.start_transcription(0).is_ok());
    bridge.on_transcription(Some("he"), false);
    bridge.on_transcription(Some("hello wo"), false);
    bridge.on_transcription(Some("hello world"), true);
    assert_eq!(bridge.get_latest_transcription(), "");
    assert_eq!(bridge.get_full_transcription(), "hello world");
}

#[test]
fn start_while_active_yields_already_active() {
    let mut bridge = ready_bridge();
    assert!(bridge.start_transcription(0).is_ok());
    bridge.simulate_text("kept");
    let second = bridge.start_transcription(5);
    assert_eq!(second, Err(StartError::AlreadyActive));
    assert!(bridge.is_capturing());
    assert_eq!(bridge.get_capture_status(), 2);
    assert_eq!(bridge.get_recognition_status(), 2);
    assert_eq!(bridge.get_full_transcription(), "kept");
}

#[test]
fn recognizer_failure_skips_capture() {
    let rec = SimRecognitionEngine::new(true, true, false);
    let cap = SimCaptureEngine::new(true, true);
    let mut bridge = AudioBridge::init(rec, cap);
    let result = bridge.start_transcription(0);
    assert_eq!(result, Err(StartError::RecognitionStartFailed));
    assert!(!bridge.is_capturing());
    // The capture engine accepts every start attempt, so an idle capture
    // engine means no attempt was ever made.
    assert!(!bridge.capture_ref().is_running());
    assert_eq!(bridge.get_capture_status(), 0);
}

#[test]
fn capture_failure_rolls_back_recognizer() {
    let rec = SimRecognitionEngine::new(true, true, true);
    let cap = SimCaptureEngine::new(true, false);
    let mut bridge = AudioBridge::init(rec, cap);
    let result = bridge.start_transcription(0);
    assert_eq!(result, Err(StartError::CaptureStartFailed));
    assert!(!bridge.is_capturing());
    assert!(!bridge.recognizer_ref().is_running());
    assert!(!bridge.capture_ref().is_running());
}

#[test]
fn stop_when_idle_is_noop_with_duration_zero() {
    let mut bridge = ready_bridge();
    assert!(bridge.start_transcription(100).is_ok());
    bridge.simulate_text("first session");
    bridge.on_transcription(Some("trailing"), false);
    let stopped = bridge.stop_transcription(160);
    assert_eq!(stopped.duration_seconds, 60);
    let again = bridge.stop_transcription(500);
    assert!(!again.is_capturing);
    assert_eq!(again.duration_seconds, 0);
    assert_eq!(again.full_text, "first session");
    assert_eq!(again.latest_text, "trailing");
    assert_eq!(bridge.get_full_transcription(), "first session");
    assert_eq!(bridge.get_latest_transcription(), "trailing");
}

#[test]
fn simulate_text_joins_segments_with_line_feed() {
    let mut bridge = ready_bridge();
    assert!(bridge.start_transcription(0).is_ok());
    bridge.simulate_text("hello");
    bridge.simulate_text("world");
    assert_eq!(bridge.get_full_transcription(), "hello\nworld");
}

#[test]
fn example_session_flow() {
    let mut bridge = ready_bridge();
    assert!(bridge.start_transcription(0).is_ok());
    bridge.on_transcription(Some("你好"), false);
    bridge.on_transcription(Some("你好世界"), false);
    bridge.on_transcription(Some("你好世界。"), true);
    let status = bridge.get_status(1);
    assert!(status.is_capturing);
    assert_eq!(status.latest_text, "");
    assert_eq!(status.full_text, "你好世界。");
}

#[test]
fn interleaved_events_keep_buffer_pair_consistent() {
    let mut bridge = ready_bridge();
    assert!(bridge.start_transcription(0).is_ok());
    let mut confirmed: Vec<String> = Vec::new();
    for utterance in 0..25 {
        for step in 0..3 {
            let partial = format!("utterance {} step {}", utterance, step);
            bridge.on_transcription(Some(&partial), false);
            assert_eq!(bridge.get_latest_transcription(), partial);
            assert_eq!(bridge.get_full_transcription(), confirmed.join("\n"));
        }
        let final_text = format!("utterance {}", utterance);
        bridge.on_transcription(Some(&final_text), true);
        confirmed.push(final_text);
        // The confirmed append and the provisional clear are visible
        // together: never a stale provisional text beside the new segment.
        assert_eq!(bridge.get_latest_transcription(), "");
        assert_eq!(bridge.get_full_transcription(), confirmed.join("\n"));
    }
    assert_eq!(confirmed.len(), 25);
}

#[test]
fn empty_final_clears_current_without_segment() {
    let mut bridge = ready_bridge();
    assert!(bridge.start_transcription(0).is_ok());
    bridge.simulate_text("kept");
    bridge.on_transcription(Some("in progress"), false);
    bridge.on_transcription(Some(""), true);
    assert_eq!(bridge.get_latest_transcription(), "");
    assert_eq!(bridge.get_full_transcription(), "kept");
}

#[test]
fn missing_payloads_are_dropped() {
    let mut bridge = ready_bridge();
    assert!(bridge.start_transcription(0).is_ok());
    bridge.on_transcription(Some("partial"), false);
    bridge.on_error(Some("native failure"));
    bridge.on_transcription(None, true);
    bridge.on_error(None);
    assert_eq!(bridge.get_latest_transcription(), "partial");
    assert_eq!(bridge.get_full_transcription(), "");
    assert_eq!(bridge.get_error(), Some("native failure".to_string()));
}

#[test]
fn error_overwrites_previous_error() {
    let mut bridge = ready_bridge();
    bridge.on_error(Some("first"));
    bridge.on_error(Some("second"));
    assert_eq!(bridge.get_error(), Some("second".to_string()));
}

#[test]
fn start_clears_previous_session_state() {
    let mut bridge = ready_bridge();
    assert!(bridge.start_transcription(0).is_ok());
    bridge.simulate_text("old segment");
    bridge.on_transcription(Some("old partial"), false);
    bridge.on_error(Some("old error"));
    bridge.stop_transcription(10);
    assert!(bridge.start_transcription(20).is_ok());
    assert_eq!(bridge.get_full_transcription(), "");
    assert_eq!(bridge.get_latest_transcription(), "");
    assert_eq!(bridge.get_error(), None);
}

#[test]
fn audio_samples_are_forwarded_verbatim() {
    let mut bridge = ready_bridge();
    assert!(bridge.start_transcription(0).is_ok());
    let block: Vec<i16> = vec![10, -20, 30, 40];
    bridge.on_audio_sample(Some(&block), 3, 0);
    assert_eq!(bridge.recognizer_ref().ingested_samples(), &vec![10, -20, 30]);
    bridge.on_audio_sample(Some(&block), 4, 1);
    assert_eq!(
        bridge.recognizer_ref().ingested_samples(),
        &vec![10, -20, 30, 10, -20, 30, 40]
    );
}

#[test]
fn invalid_audio_blocks_are_dropped() {
    let mut bridge = ready_bridge();
    assert!(bridge.start_transcription(0).is_ok());
    let block: Vec<i16> = vec![1, 2];
    bridge.on_audio_sample(None, 5, 0);
    bridge.on_audio_sample(Some(&block), 0, 0);
    bridge.on_audio_sample(Some(&block), -3, 0);
    bridge.on_audio_sample(Some(&block), 3, 0);
    assert!(bridge.recognizer_ref().ingested_samples().is_empty());
}

#[test]
fn permissions_and_on_device_reflect_engines() {
    let rec = SimRecognitionEngine::new(false, true, true);
    let cap = SimCaptureEngine::new(true, true);
    let bridge: Bridge = AudioBridge::init(rec, cap);
    assert_eq!(bridge.check_permissions(), (true, false));
    assert!(bridge.supports_on_device());
}

#[test]
fn language_is_stored_and_applied() {
    let mut bridge = ready_bridge();
    assert_eq!(bridge.get_language(), "zh-CN");
    bridge.set_language("en-US");
    assert_eq!(bridge.get_language(), "en-US");
}

#[test]
fn clear_transcription_empties_both_buffers() {
    let mut bridge = ready_bridge();
    assert!(bridge.start_transcription(0).is_ok());
    bridge.simulate_text("segment");
    bridge.on_transcription(Some("partial"), false);
    bridge.clear_transcription();
    assert_eq!(bridge.get_full_transcription(), "");
    assert_eq!(bridge.get_latest_transcription(), "");
    assert!(bridge.is_capturing());
}

#[test]
fn status_duration_clamps_and_saturates() {
    let mut bridge = ready_bridge();
    assert!(bridge.start_transcription(1000).is_ok());
    assert_eq!(bridge.get_status(995).duration_seconds, 0);
    assert_eq!(bridge.get_status(1030).duration_seconds, 30);
    assert_eq!(bridge.get_status(i64::MAX).duration_seconds, i32::MAX);
    let idle = ready_bridge();
    assert_eq!(idle.get_status(50).duration_seconds, 0);
}

#[test]
fn rendering_has_no_leading_or_trailing_separator() {
    let mut bridge = ready_bridge();
    assert_eq!(bridge.get_full_transcription(), "");
    bridge.simulate_text("only");
    assert_eq!(bridge.get_full_transcription(), "only");
    bridge.simulate_text("");
    assert_eq!(bridge.get_full_transcription(), "only");
}
