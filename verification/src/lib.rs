//! Visibility and input transparency of a single spotlight-style overlay
//! window.
//!
//! The window is normally hidden. A global hotkey or a click on the tray
//! icon summons it: it is shown, focused and centred. Whenever it is hidden
//! or without focus it is transparent to the mouse (click-through).
//!
//! The library decides; the host acts. Nothing in here touches a window:
//!
//! - [`style`] computes the extended style word that turns click-through on
//!   or off, from the word that the host has read.
//! - [`event`] names what can happen, [`plan`] says which window operations
//!   answer it and in which order, and [`operation`] hands these to the host
//!   one request at a time and takes the answers, failures included.
//! - [`window`] models the window as plain values, and [`laws`] proves what
//!   the plans guarantee of it.

pub mod error;
pub mod event;
pub mod hex;
pub mod laws;
pub mod operation;
pub mod plan;
pub mod protocol;
pub mod style;
pub mod window;
