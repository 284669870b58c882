//! Core logic of a screen-blanking tray utility: one borderless, top-most
//! overlay window per monitor, shown and hidden as a set in response to a
//! global hotkey, tray events and dismiss gestures.
//!
//! This crate holds the verified part: the overlay-set state machine, the
//! per-window model, hotkey parsing and formatting, the configuration file
//! format, and the decision logic behind the color picker, the hotkey-capture
//! dialog and the tray menu. The platform glue (window creation, painting,
//! the message loop, the registry) lives outside and drives these functions
//! with plain values.

pub mod app;
pub mod color_picker;
pub mod color_window;
pub mod config;
pub mod hotkey_dialog;
pub mod monitor;
pub mod startup;
pub mod text;
pub mod tray;
