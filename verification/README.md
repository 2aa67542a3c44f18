# altyazi_uretici

A verified library for a small desktop program that generates `.srt`
subtitles for MP4 videos with ffmpeg and whisper.cpp, plus the program itself.

- `src/` — the library, checked with Verus:
  - `setup.rs`: the first-time setup state (component statuses, log) and the
    steps of a setup run, with laws about whole runs and retries;
  - `tools.rs`: PowerShell download and extraction scripts, ffmpeg and
    whisper-cli arguments, derived file names and error messages;
  - `settings.rs`: model and language choices, language labels;
  - `batch.rs`: which files a folder run takes and the log lines;
  - `text.rs`: white space, line splitting, quoting and decimal rendering.
- `app/main.rs` — the egui window, file dialogs, downloads and processes.
- `tests/` — tests of the library on concrete values.
