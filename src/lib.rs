//! The lifecycle of a single-window rendering session: the swap-chain
//! configuration and its resizing, the choice of display mode and the
//! fullscreen toggle, the per-frame acquire, record, submit and present
//! transaction with its bounded recovery from surface failures, and the
//! single-owner slot that holds the application between callbacks.
//!
//! Each part decides from plain values; the caller performs the window,
//! device and surface operations it asks for and reports back what happened.

pub mod app_slot;
pub mod display;
pub mod frame;
pub mod session;
pub mod surface_config;
