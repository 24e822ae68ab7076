use goxlr_core::{
    AudioError, AudioFile, AudioHandler, SampleBank, SampleButtons, StopAction,
};

fn sample(file: &str, fade_on_stop: bool) -> AudioFile {
    AudioFile {
        file: file.to_string(),
        gain: Some(900),
        start_pct: Some(250),
        stop_pct: Some(9750),
        fade_on_stop,
    }
}

fn handler_with_output() -> AudioHandler {
    let mut handler = AudioHandler::new();
    let devices = vec![
        "Built-in Audio Analog Stereo".to_string(),
        "goxlr_sample_playback".to_string(),
    ];
    handler.find_output_device(0, &devices);
    handler
}

/// Triggering playback on an empty cell succeeds and marks it occupied;
/// triggering again on the same cell fails without touching the session.
#[test]
fn trigger_then_slot_occupied() {
    let mut handler = handler_with_output();
    assert!(!handler.is_sample_playing(SampleBank::A, SampleButtons::TopLeft));

    let task = handler
        .play_for_button(SampleBank::A, SampleButtons::TopLeft, sample("beep.wav", true), false, 7)
        .expect("empty cell with a resolved device");
    assert_eq!(task.worker, 7);
    assert_eq!(task.file, "beep.wav");
    assert_eq!(task.output_device, "goxlr_sample_playback");
    assert_eq!(task.fade_out_ms, Some(500));
    assert_eq!(task.start_pct, Some(250));
    assert_eq!(task.stop_pct, Some(9750));
    assert_eq!(task.gain, Some(900));
    assert!(!task.loop_track);

    assert!(handler.is_sample_playing(SampleBank::A, SampleButtons::TopLeft));
    assert!(!handler.is_sample_stopping(SampleBank::A, SampleButtons::TopLeft));

    let again = handler.play_for_button(
        SampleBank::A,
        SampleButtons::TopLeft,
        sample("other.wav", false),
        true,
        8,
    );
    assert_eq!(again.unwrap_err(), AudioError::SlotOccupied);
    assert!(handler.is_sample_playing(SampleBank::A, SampleButtons::TopLeft));
    // The neighbouring cell is untouched and still free.
    assert!(!handler.is_sample_playing(SampleBank::A, SampleButtons::TopRight));
}

#[test]
fn no_fade_means_no_fade_out() {
    let mut handler = handler_with_output();
    let task = handler
        .play_for_button(SampleBank::B, SampleButtons::BottomRight, sample("x.wav", false), true, 1)
        .unwrap();
    assert_eq!(task.fade_out_ms, None);
    assert!(task.loop_track);
}

#[test]
fn playback_without_output_device_fails() {
    let mut handler = AudioHandler::new();
    let r = handler.play_for_button(
        SampleBank::A,
        SampleButtons::TopLeft,
        sample("beep.wav", true),
        false,
        1,
    );
    assert_eq!(r.unwrap_err(), AudioError::NoOutputDevice);
    assert!(!handler.is_sample_playing(SampleBank::A, SampleButtons::TopLeft));
}

/// First stop requests the cooperative fade and keeps the cell; the second
/// decides the forced kill and clears the cell.
#[test]
fn two_phase_stop() {
    let mut handler = handler_with_output();
    handler
        .play_for_button(SampleBank::C, SampleButtons::TopRight, sample("s.wav", true), false, 42)
        .unwrap();

    let first = handler.stop_playback(SampleBank::C, SampleButtons::TopRight).unwrap();
    assert_eq!(first, StopAction::FadeRequested { worker: 42 });
    assert!(handler.is_sample_playing(SampleBank::C, SampleButtons::TopRight));
    assert!(handler.is_sample_stopping(SampleBank::C, SampleButtons::TopRight));

    let second = handler.stop_playback(SampleBank::C, SampleButtons::TopRight).unwrap();
    assert_eq!(second, StopAction::ForceStop { worker: 42 });
    assert!(!handler.is_sample_playing(SampleBank::C, SampleButtons::TopRight));
    assert!(!handler.is_sample_stopping(SampleBank::C, SampleButtons::TopRight));
}

#[test]
fn stop_on_empty_cell_is_ignored() {
    let mut handler = handler_with_output();
    let r = handler.stop_playback(SampleBank::B, SampleButtons::BottomLeft).unwrap();
    assert_eq!(r, StopAction::Ignored);
}

/// Reconciliation clears only cells whose workers have finished and never
/// waits for a running one.
#[test]
fn reconcile_clears_only_finished_workers() {
    let mut handler = handler_with_output();
    handler
        .play_for_button(SampleBank::A, SampleButtons::TopLeft, sample("a.wav", true), false, 1)
        .unwrap();
    handler
        .play_for_button(SampleBank::B, SampleButtons::TopRight, sample("b.wav", true), true, 2)
        .unwrap();

    // Neither worker has finished: both cells stay.
    handler.check_playing(&Vec::new());
    assert!(handler.is_sample_playing(SampleBank::A, SampleButtons::TopLeft));
    assert!(handler.is_sample_playing(SampleBank::B, SampleButtons::TopRight));

    // One worker finished: exactly its cell is cleared.
    handler.check_playing(&vec![2]);
    assert!(handler.is_sample_playing(SampleBank::A, SampleButtons::TopLeft));
    assert!(!handler.is_sample_playing(SampleBank::B, SampleButtons::TopRight));

    handler.check_playing(&vec![1]);
    assert!(!handler.is_sample_playing(SampleBank::A, SampleButtons::TopLeft));
}

#[test]
fn stop_all_drains_every_cell() {
    let mut handler = handler_with_output();
    handler
        .play_for_button(SampleBank::A, SampleButtons::TopLeft, sample("a.wav", true), false, 10)
        .unwrap();
    handler
        .play_for_button(SampleBank::C, SampleButtons::BottomRight, sample("b.wav", true), false, 11)
        .unwrap();

    let mut workers = handler.stop_all();
    workers.sort_unstable();
    assert_eq!(workers, vec![10, 11]);
    assert!(!handler.is_sample_playing(SampleBank::A, SampleButtons::TopLeft));
    assert!(!handler.is_sample_playing(SampleBank::C, SampleButtons::BottomRight));
}

#[test]
fn record_is_a_defined_no_op() {
    let mut handler = handler_with_output();
    assert!(handler.record_for_button(SampleBank::A, SampleButtons::TopLeft).is_ok());
    assert!(!handler.is_sample_playing(SampleBank::A, SampleButtons::TopLeft));
}

/// A resolved endpoint is cached: within the staleness window no new
/// enumeration is needed, after it the next lookup re-enumerates.
#[test]
fn endpoint_cache_staleness_window() {
    let mut handler = AudioHandler::new();
    assert!(handler.needs_device_check(true, 0));

    let devices = vec!["goxlr_sample_playback".to_string()];
    handler.find_output_device(1000, &devices);

    assert!(!handler.needs_device_check(true, 1000));
    assert!(!handler.needs_device_check(true, 6000)); // exactly at the window's edge
    assert!(handler.needs_device_check(true, 6001)); // one past it

    // The input direction has its own cache, still unresolved.
    assert!(handler.needs_device_check(false, 1000));
}

/// An enumeration with no matching name leaves the endpoint absent, and an
/// absent endpoint always asks for another check.
#[test]
fn unmatched_enumeration_resolves_nothing() {
    let mut handler = AudioHandler::new();
    let devices = vec!["HDA Intel PCH".to_string(), "HDMI Output".to_string()];
    handler.find_output_device(1000, &devices);
    assert!(handler.needs_device_check(true, 1001));

    let r = handler.play_for_button(
        SampleBank::A,
        SampleButtons::TopLeft,
        sample("beep.wav", true),
        false,
        1,
    );
    assert_eq!(r.unwrap_err(), AudioError::NoOutputDevice);
}

/// Device-name matching goes through the real pattern engine: the first
/// device whose name matches any known pattern wins, in device order.
#[test]
fn first_matching_device_wins() {
    let mut handler = AudioHandler::new();
    let devices = vec![
        "HDA Intel PCH".to_string(),
        "GoXLR_0_8_9_HiFi__Line2__sink".to_string(),
        "goxlr_sample_playback".to_string(),
    ];
    handler.find_output_device(0, &devices);
    let task = handler
        .play_for_button(SampleBank::A, SampleButtons::TopLeft, sample("x.wav", false), false, 1)
        .unwrap();
    assert_eq!(task.output_device, "GoXLR_0_8_9_HiFi__Line2__sink");
}

/// The escaped-star pattern matches the literal name, not a wildcard.
#[test]
fn core_audio_pattern_is_literal() {
    let mut handler = AudioHandler::new();
    handler.find_output_device(0, &vec!["CoreAudio anything Sample".to_string()]);
    assert!(handler.needs_device_check(true, 0)); // no match: the star is literal

    let mut handler = AudioHandler::new();
    handler.find_output_device(0, &vec!["CoreAudio*Sample".to_string()]);
    assert!(!handler.needs_device_check(true, 0));
}

#[test]
fn input_patterns_need_the_source_suffix() {
    let mut handler = AudioHandler::new();
    let devices = vec![
        "goxlr_sampler.monitor".to_string(),
        "goxlr_sampler_1.source".to_string(),
    ];
    handler.find_input_device(0, &devices);
    assert!(!handler.needs_device_check(false, 0));

    let mut handler = AudioHandler::new();
    handler.find_input_device(0, &vec!["goxlr_sampler.monitor".to_string()]);
    assert!(handler.needs_device_check(false, 0));
}
