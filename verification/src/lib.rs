//! Core of a display server: spatial index and stacking order for windows
//! (`space`), the pointer grab state machine for interactive move and resize
//! (`seat`), the hardware output pipeline with CRTC assignment and page-flip
//! pacing (`output`), the shell-role lifecycle (`shell`), a bridge that proxies
//! legacy protocol windows into the scene (`bridge`), and the dispatcher tick
//! policy (`dispatcher`).
//!
//! The wire protocol, GPU drivers and input devices live outside this crate:
//! the functions here take plain values (coordinates, handles, event records)
//! and return the decisions the surrounding reactor must carry out.

pub mod bridge;
pub mod compositor;
pub mod config;
pub mod dispatcher;
pub mod entropy;
pub mod geometry;
pub mod output;
pub mod seat;
pub mod shell;
pub mod space;
