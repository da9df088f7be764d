//! Verified decision logic of a SQLite statement cursor, the page state of a
//! theme preview view, and the application menu bar.

pub mod statement;
pub mod rows;
pub mod theme_preview;
pub mod app_menus;
