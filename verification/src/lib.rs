//! Core of a terminal text viewer: terminal command queueing, viewport
//! rendering, and cursor/event handling, with the real terminal I/O left
//! to the surrounding binary.

pub mod editor;
pub mod terminal;
pub mod view;
