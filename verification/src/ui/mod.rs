//! Where things are drawn and clicked.

pub mod context_menu_panel;
pub mod focus;
pub mod hosts_picker_panel;
pub mod hover;
pub mod layout;
pub mod mouse;
pub mod nav_candidates_popup;
pub mod nav_compact;
pub mod nav_expanded;
pub mod nav_preview;
pub mod preview;
pub mod scrollbar;
pub mod slices;
pub mod snippets;
pub mod style;
pub mod width;
