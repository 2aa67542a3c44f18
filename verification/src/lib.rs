//! The logic of a desktop subtitle generator that transcribes MP4 videos to
//! SRT files with ffmpeg and whisper.cpp: the first-time setup that installs
//! those tools, the command lines and scripts handed to them, the user's
//! choices, and the lines written to the log.
//!
//! Everything here is plain computation; windows, dialogs, files and
//! processes are left to the program that uses the library.
pub mod batch;
pub mod settings;
pub mod setup;
pub mod text;
pub mod tools;
