//! Verified core of the automatic spell checker: version arithmetic,
//! passport-key extraction, speller reply lookup and the decisions that the
//! tray, hotkey, installer and updater programs take.

pub mod text;
pub mod number;
pub mod version;
pub mod passport;
pub mod json;
pub mod paths;
pub mod downloader;
pub mod hotkey;
pub mod tray;
pub mod process;
pub mod update;
pub mod patcher;
pub mod speller;
