//! The core of a small modal text editor for the terminal: the keys it
//! understands, the text buffer with its three cursors, and the rules by
//! which a key press changes them.

pub mod action;
pub mod command;
pub mod dispatch;
pub mod insert;
pub mod key;
pub mod laws;
pub mod normal;
pub mod render;
pub mod state;
pub mod text;
