//! Windowing and asset-loading shims for a WASI WebGPU host.
//!
//! The host exposes a drawable surface with four pollable event sources
//! (key-down, key-up, resize, frame). [`translator`] says what one wake-up
//! of the host is worth: at most one window event, that of the first
//! source in priority order that has one. [`event_loop`] is the loop
//! around it, as a state machine that a driver feeds with the host's
//! replies; [`window`] registers the loop's one surface. [`event`],
//! [`keyboard`] and [`dpi`] hold the types that the events are made of,
//! and [`asset`] the placeholder asset reader.

pub mod asset;
pub mod dpi;
pub mod event;
pub mod event_loop;
pub mod keyboard;
pub mod translator;
pub mod window;
