//! Interaction core of a terminal dashboard for laptop hardware telemetry.
//!
//! The crate models the state that the dashboard mutates in response to
//! keyboard input and timer ticks: editable controls grouped into panels, a
//! focus router over those panels, the fingerprint-LED brightness policy, the
//! snapshot refresh schedule, and the application controller that turns
//! committed edits into outbound hardware commands.  Terminal drawing and the
//! hardware access itself live outside the library and exchange plain values
//! with it.

pub mod app;
pub mod config;
pub mod event;
pub mod framework;
pub mod tui;
