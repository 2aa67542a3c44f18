use altyazi_uretici::batch::{
    file_error_line, file_progress_message, files_found_message, is_mp4_extension,
    item_error_line, launch_error_line, processing_line, saved_line, scanning_line,
};
use altyazi_uretici::settings::{
    lang_label, language_options, model_file_name, model_options, start_allowed, Settings,
};

#[test]
fn language_labels() {
    assert_eq!(lang_label("en"), "English");
    assert_eq!(lang_label("tr"), "Turkish");
    assert_eq!(lang_label("de"), "German");
    assert_eq!(lang_label("fr"), "French");
    assert_eq!(lang_label("es"), "Spanish");
    assert_eq!(lang_label("ar"), "Arabic");
    assert_eq!(lang_label("ru"), "Russian");
    assert_eq!(lang_label("zh"), "Chinese");
    assert_eq!(lang_label("ja"), "Japanese");
    assert_eq!(lang_label("ko"), "Korean");
    assert_eq!(lang_label("xx"), "Auto");
    assert_eq!(lang_label(""), "Auto");
    assert_eq!(lang_label("EN"), "Auto");
}

#[test]
fn offered_languages_have_their_labels() {
    let opts = language_options();
    assert_eq!(opts.len(), 7);
    let codes: Vec<&str> = opts.iter().map(|p| p.0).collect();
    assert_eq!(codes, vec!["en", "tr", "de", "fr", "es", "ar", "ru"]);
    for (code, label) in opts {
        assert_eq!(lang_label(code), label);
        assert_ne!(label, "Auto");
    }
}

#[test]
fn models_and_defaults() {
    let s = Settings::new();
    assert_eq!(s.model, "tiny");
    assert_eq!(s.language, "en");
    assert!(s.selected_file.is_empty() && s.selected_folder.is_empty());
    assert_eq!(s.model_file_name(), "ggml-tiny.bin");
    assert_eq!(model_file_name("medium"), "ggml-medium.bin");
    let names: Vec<&str> = model_options().iter().map(|p| p.0).collect();
    assert_eq!(names, vec!["tiny", "base", "small", "medium"]);
    assert_eq!(model_options()[3].1, "medium — Best  (~1.5 GB)");
}

#[test]
fn generate_button() {
    assert!(start_allowed(false, true, "a.mp4"));
    assert!(!start_allowed(true, true, "a.mp4"));
    assert!(!start_allowed(false, false, "a.mp4"));
    assert!(!start_allowed(false, true, ""));
}

#[test]
fn mp4_filter() {
    assert!(is_mp4_extension(Some("mp4")));
    assert!(is_mp4_extension(Some("MP4")));
    assert!(is_mp4_extension(Some("Mp4")));
    assert!(!is_mp4_extension(Some("mkv")));
    assert!(!is_mp4_extension(Some("mp44")));
    assert!(!is_mp4_extension(Some("")));
    assert!(!is_mp4_extension(None));
}

#[test]
fn batch_messages() {
    assert_eq!(files_found_message(3), "Found 3 MP4 file(s). Processing...");
    assert_eq!(files_found_message(12), format!("Found {} MP4 file(s). Processing...", 12));
    assert_eq!(file_progress_message(0, 2, "a.mp4"), "[1/2] a.mp4");
    assert_eq!(file_progress_message(9, 10, "ç.mp4"), format!("[{}/{}] {}", 10, 10, "ç.mp4"));
}

#[test]
fn log_lines() {
    assert_eq!(processing_line("a.mp4"), "Processing: a.mp4");
    assert_eq!(scanning_line("C:\\v"), "Scanning: C:\\v");
    assert_eq!(saved_line("a.srt"), "  Saved: a.srt");
    assert_eq!(file_error_line("boom"), "✗ Error: boom");
    assert_eq!(item_error_line("boom"), "  ✗ boom");
    assert_eq!(launch_error_line("ffmpeg", "not found"), "ffmpeg launch failed: not found");
}
