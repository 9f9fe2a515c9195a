//! The file preview.

pub mod card;
pub mod markdown;
pub mod markdown_spans;
pub mod markdown_view;
pub mod structured;
pub mod text;
pub mod video;
pub mod wrap;
