//! A language-server binary resolver and a completion labeler for LikeC4,
//! with their decision logic verified.

pub mod label;
pub mod resolver;
