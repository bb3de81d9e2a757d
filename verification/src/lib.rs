//! The logic of micloop: looping the microphone back to the speakers from a hotkey.

pub mod config;
pub mod desktop;
pub mod engine;
pub mod headless;
pub mod history;
pub mod instance;
pub mod listener;
pub mod loopback;
pub mod path;
pub mod process;
pub mod settings;
pub mod text;
pub mod tray;
