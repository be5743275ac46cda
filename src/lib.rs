//! Scaffolding for static-site content files: a note or a post, its path
//! under `content/`, and its front matter.

pub mod content;
pub mod kind;
pub mod laws;
pub mod slugs;
pub mod timestamp;

pub use content::{path_for, render, Content};
pub use kind::ContentType;
pub use timestamp::Timestamp;
