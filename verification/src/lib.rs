//! Clipboard+ core: the rules of a local clipboard history, proved with Verus.

pub mod text;
pub mod detector;
pub mod decimal;
pub mod formats;
pub mod external;
pub mod content;
pub mod search;
pub mod database;
pub mod monitor;
pub mod tray;
pub mod shortcuts;
pub mod commands;
