//! Placement and interaction-mode engine for a floating desktop panel.
//!
//! The library decides where the main panel and its settings panel appear on
//! a multi-monitor desktop and whether the main panel accepts mouse input.
//! It computes values only; the host applies them to its windows.
pub mod geometry;
pub mod monitors;
pub mod grid;
pub mod random;
pub mod settings;
pub mod placement;
pub mod interaction;
pub mod window;
