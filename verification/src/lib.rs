//! The decisions of a two-computer software KVM, verified.

pub mod audio;
pub mod bytes;
pub mod capture;
pub mod capture_guard;
pub mod clipboard;
pub mod clipboard_sync;
pub mod clock;
pub mod config;
pub mod connector;
pub mod cursor_handoff;
pub mod desktop;
pub mod framing;
pub mod hash;
pub mod held;
pub mod identity;
pub mod image_transfer;
pub mod injection;
pub mod jitter;
pub mod jpeg;
pub mod jpeg_scan;
pub mod keymap;
pub mod libei;
pub mod linux_audio;
pub mod listen;
pub mod listener;
pub mod live_clipboard;
pub mod live_input;
pub mod noise;
pub mod pairing;
pub mod pcm;
pub mod pins;
pub mod pointer_monitor;
pub mod portal_capture;
pub mod protocol;
pub mod self_test;
pub mod session;
pub mod session_duties;
pub mod session_laws;
pub mod stats;
pub mod supervisor;
pub mod text;
pub mod tray;
pub mod wayland_input;
pub mod windows_session;
