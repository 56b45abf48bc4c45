//! Verified core of a microphone-recording utility.
//!
//! The heart of the crate is the recording session: hardware samples arriving
//! in one of three native representations are normalized to canonical signed
//! 16-bit PCM, collected by a capture writer, and finalized into a complete
//! WAV image whose duration and size are pinned down exactly.  Around that
//! core sit the recordings index with its purge rules, the settings model,
//! and small helpers for hotkey validation and permission reporting.

pub mod audio;
pub mod candidates;
pub mod deliver;
pub mod hotkey;
pub mod hotkey_ptt;
pub mod hotkey_tracker;
pub mod hud;
pub mod models;
pub mod modifier_hotkey;
pub mod perm;
pub mod sample;
pub mod settings;
pub mod storage;
pub mod strutil;
pub mod timefmt;
pub mod wav;
pub mod writer;
