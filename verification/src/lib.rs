//! The decisions behind a terminal workbench: what a key, a mouse event or a
//! paste does, how views scroll, and how popups, previews and menus lay out.

pub mod app;
pub mod command;
pub mod engine;
pub mod event;
pub mod find_widget;
pub mod geometry;
pub mod global_search;
pub mod hosts_picker;
pub mod input;
pub mod input_edit;
pub mod input_edit_multi;
pub mod keymap;
pub mod laws;
pub mod layout;
pub mod menu;
pub mod picker_core;
pub mod prefs;
pub mod preview_context_menu;
pub mod quick_open;
pub mod rows;
pub mod scroll;
pub mod search;
pub mod selection;
pub mod selection_context_menu;
pub mod settings;
pub mod shell_integration;
pub mod text;
pub mod time;
pub mod tree_context_menu;
pub mod ui;
