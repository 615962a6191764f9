//! Shell access from any text box.
//!
//! The library is the decision-making half of a keyboard interceptor: it
//! tracks which keys are held, keeps a one-line edit buffer in step with what
//! the focused application shows, and says which primitive key events have to
//! be sent to a virtual keyboard to draw the prompt, to move in it, to erase
//! it and to type a command's output back. Reading devices, writing to the
//! virtual keyboard, the clipboard and running the command are left to the
//! program around it.

pub mod cli;
pub mod command;
pub mod emission;
pub mod event;
pub mod field;
pub mod keyboard;
pub mod keys;
pub mod onscreen;
pub mod permissions;
pub mod replay;
pub mod session;
pub mod terminal;
pub mod text;
pub mod utils;
