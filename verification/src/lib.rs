//! Verified core logic of the wayscriber screen-annotation overlay.
//!
//! The modules here hold the decisions, parsers and small state machines of the
//! overlay; the Wayland plumbing, rendering and I/O live in the application crate.

pub mod presentation;
pub mod text;
pub mod color;
pub mod keys;
pub mod command_palette;
pub mod help_overlay;
pub mod color_picker;
pub mod cli;
pub mod desktop;
pub mod overlay;
pub mod radial;
pub mod config_draft;
pub mod toolbar_sync;
pub mod cursor;
pub mod capture;
pub mod event_loop;
pub mod surface;
pub mod configure;
pub mod pointer;
pub mod tablet;
pub mod launch;
pub mod selection;
pub mod geometry;
pub mod interaction;
pub mod undo;
pub mod config_ui;
pub mod zoom;
