//! Input-to-action dispatch engine for per-application volume control.
//!
//! The engine turns raw hardware events (key transitions, global hotkey
//! events, bytes from a serial device) into debounced, de-duplicated volume
//! commands. Every function is a decision over plain values: it takes one
//! input together with the time it happened and returns what is to be done.
//! The surrounding program carries the commands out and reads the clock.
//!
//! * [`key`], [`keyboard`], [`keycodes`]: keys, key names and chords.
//! * [`key_state`]: the keys that are held at this moment.
//! * [`key_listener`], [`keybinds`]: the hotkey registry and the bindings
//!   of sessions.
//! * [`hotkeys`], [`repeat`]: the media keys and press-and-hold repetition.
//! * [`debounce`]: suppression of double fires.
//! * [`serial`], [`reconciler`], [`cache`]: the serial line protocol.
//! * [`action`], [`dispatch`], [`volume_service`], [`audio_session`]: what
//!   an action does to the audio sessions.
//! * [`engine`]: all of the above behind one object.
//! * [`config`], [`events`], [`icon`], [`logger`], [`tray`], [`window`]:
//!   the rules of the parts around the engine.
//! * [`text`], [`assoc`]: helpers.

pub mod action;
pub mod assoc;
pub mod audio_session;
pub mod cache;
pub mod config;
pub mod debounce;
pub mod dispatch;
pub mod engine;
pub mod events;
pub mod hotkeys;
pub mod icon;
pub mod key;
pub mod key_listener;
pub mod key_state;
pub mod keybinds;
pub mod keyboard;
pub mod keycodes;
pub mod logger;
pub mod reconciler;
pub mod repeat;
pub mod serial;
pub mod text;
pub mod tray;
pub mod volume_service;
pub mod window;
