//! What the library promises of whole operations: which key, click or turn of the wheel asks
//! for what.

pub mod bindings;
pub mod chords;
pub mod drags;
pub mod held;
pub mod mouse;
pub mod overlays;
pub mod pastes;
pub mod reports;
pub mod tabs;
pub mod wheel;
