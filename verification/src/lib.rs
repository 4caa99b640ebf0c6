//! Decision core of a desktop client that keeps a game account in sync.

pub mod app;
pub mod elevation;
pub mod elevation_laws;
pub mod i18n;
pub mod i18n_laws;
pub mod launch;
pub mod numerals;
pub mod process_env;
pub mod text;
pub mod text_laws;
pub mod theme;
pub mod utf16;
pub mod widgets;
