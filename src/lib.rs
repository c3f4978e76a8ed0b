//! Window state and geometry engine of a tiling window manager: native style
//! bit sets, window rules, decoration-compensated geometry, the per-window
//! capture/restore model, the configuration model and the work-mode lifecycle.
pub mod component;
pub mod config;
pub mod document;
pub mod geometry;
pub mod keybinding;
pub mod loading;
pub mod rule;
pub mod style;
pub mod text;
pub mod window;
pub mod work_mode;
