//! What a key, a mouse event or a paste does.

pub mod dragging;
pub mod drops;
pub mod files;
pub mod focused_preview;
pub mod git;
pub mod graph;
pub mod keys;
pub mod leader;
pub mod mouse;
pub mod moves;
pub mod overlays;
pub mod paste;
pub mod popups;
pub mod scrolling;
pub mod search_tab;
