use altyazi_uretici::setup::{
    needs_setup, setup_order, setup_screen_needed, Component, ComponentStatus, SetupPrompt,
    SetupState,
};

fn run(state: &mut SetupState, outcomes: [Result<(), String>; 3]) {
    state.begin();
    for (c, outcome) in setup_order().into_iter().zip(outcomes.into_iter()) {
        if state.start_download(c) {
            state.record_download(c, outcome);
        }
    }
    state.finish();
}

#[test]
fn fresh_state() {
    let s = SetupState::new();
    assert!(matches!(s.ffmpeg, ComponentStatus::Pending));
    assert!(matches!(s.whisper, ComponentStatus::Pending));
    assert!(matches!(s.model, ComponentStatus::Pending));
    assert!(s.log.is_empty() && !s.started && !s.all_done);
    assert_eq!(s.prompt(), SetupPrompt::Install);
}

#[test]
fn installed_components_at_start() {
    let s = SetupState::with_installed(true, false, true);
    assert!(matches!(s.ffmpeg, ComponentStatus::Done));
    assert!(matches!(s.whisper, ComponentStatus::Pending));
    assert!(matches!(s.model, ComponentStatus::Done));
    assert!(needs_setup(true, false, true));
    assert!(!needs_setup(true, true, true));
    assert!(setup_screen_needed(true, false));
    assert!(!setup_screen_needed(true, true));
    assert!(!setup_screen_needed(false, false));
}

#[test]
fn successful_run_completes() {
    let mut s = SetupState::with_installed(false, true, false);
    run(&mut s, [Ok(()), Ok(()), Ok(())]);
    assert!(s.all_done && s.started);
    assert_eq!(
        s.log,
        vec![
            "Downloading ffmpeg (~80 MB)...",
            "✓ ffmpeg.exe ready",
            "Downloading Whisper tiny model (~75 MB)...",
            "✓ ggml-tiny.bin ready",
            "✓ All done! Starting the app...",
        ]
    );
}

#[test]
fn failed_run_then_retry() {
    let mut s = SetupState::new();
    run(&mut s, [Ok(()), Err("404".to_string()), Ok(())]);
    assert!(!s.all_done && !s.started);
    assert!(matches!(&s.whisper, ComponentStatus::Error(e) if e == "404"));
    assert!(s.has_error() && !s.any_downloading());
    assert_eq!(s.prompt(), SetupPrompt::Install);
    assert_eq!(s.log[3], "✗ whisper failed: 404");
    assert_eq!(s.log.last().unwrap(), "⚠ Setup incomplete. Click Retry to try again.");

    s.retry_failed();
    assert!(matches!(s.whisper, ComponentStatus::Pending));
    assert!(matches!(s.ffmpeg, ComponentStatus::Done));
    assert!(!s.has_error());
    assert_eq!(s.log.last().unwrap(), "--- Retrying failed downloads ---");

    let before = s.log.len();
    run(&mut s, [Err("unused".to_string()), Ok(()), Err("unused".to_string())]);
    assert!(s.all_done && s.all_installed());
    assert_eq!(s.log.len(), before + 3);
}

#[test]
fn installed_component_is_skipped() {
    let mut s = SetupState::with_installed(true, true, true);
    assert!(!s.start_download(Component::Whisper));
    assert!(s.log.is_empty());
    s.begin();
    assert_eq!(s.prompt(), SetupPrompt::Wait);
}

#[test]
fn prompt_offers_retry_while_started_with_a_failure() {
    let mut s = SetupState::new();
    s.begin();
    assert!(s.start_download(Component::Ffmpeg));
    assert!(s.any_downloading());
    assert_eq!(s.prompt(), SetupPrompt::Wait);
    s.record_download(Component::Ffmpeg, Err("x".to_string()));
    assert_eq!(s.prompt(), SetupPrompt::Retry);
}

#[test]
fn icons_and_files() {
    assert_eq!(ComponentStatus::Pending.icon(), "○");
    assert_eq!(ComponentStatus::Downloading.icon(), "↓");
    assert_eq!(ComponentStatus::Done.icon(), "✓");
    assert_eq!(ComponentStatus::Error("e".to_string()).icon(), "✗");
    assert_eq!(Component::Ffmpeg.file_name(), "ffmpeg.exe");
    assert_eq!(Component::Whisper.file_name(), "whisper-cli.exe");
    assert_eq!(Component::Model.file_name(), "ggml-tiny.bin");
    assert_eq!(setup_order(), vec![Component::Ffmpeg, Component::Whisper, Component::Model]);
}

#[test]
fn complete_setup_stays_complete() {
    let mut s = SetupState::with_installed(true, true, true);
    run(&mut s, [Err("a".to_string()), Err("b".to_string()), Err("c".to_string())]);
    assert!(s.all_done);
    s.retry_failed();
    assert!(s.all_done);
    let before = s.log.len();
    run(&mut s, [Err("a".to_string()), Err("b".to_string()), Err("c".to_string())]);
    assert!(s.all_done && s.all_installed());
    assert_eq!(s.log.len(), before + 1);
}

#[test]
fn default_model_is_the_installed_one() {
    let settings = altyazi_uretici::settings::Settings::new();
    assert_eq!(settings.model_file_name(), Component::Model.file_name());
}

fn downloading(s: &SetupState) -> Vec<Component> {
    setup_order().into_iter().filter(|c| matches!(s.status(*c), ComponentStatus::Downloading)).collect()
}

#[test]
fn run_downloads_one_at_a_time_in_order() {
    let mut s = SetupState::with_installed(false, true, false);
    s.begin();
    let mut seen = Vec::new();
    for c in setup_order() {
        let was_done = s.status(c).is_done();
        if s.start_download(c) {
            assert_eq!(downloading(&s), vec![c]);
            seen.push(c);
            s.record_download(c, if c == Component::Model { Err("x".to_string()) } else { Ok(()) });
            assert!(downloading(&s).is_empty());
        } else {
            assert!(was_done);
        }
        assert!(s.whisper.is_done());
    }
    s.finish();
    assert_eq!(seen, vec![Component::Ffmpeg, Component::Model]);
    assert!(s.ffmpeg.is_done() && s.model.is_error() && !s.all_done);
}
