//! Core of a minimal desktop browser shell: the tab state, the messages its
//! event handler accepts, the style classes of its buttons, and the glyphs of
//! its icon buttons.
//!
//! Everything the toolkit owns — widget trees, fonts, colors — lives outside
//! this crate; what is here is the plain data and the decisions made on it.

pub mod icons;
pub mod state;
pub mod style;
