//! Command-palette menu, colour themes and key dispatch decisions of the
//! chat TUI, with their contracts proved by Verus.

pub mod theme;
pub mod style;
pub mod effects;
pub mod nav;
pub mod menu;
pub mod text;
pub mod menu_navigation;
pub mod keys;
pub mod dispatcher;
pub mod laws;
