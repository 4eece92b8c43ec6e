//! C++ generation.
pub mod content;
pub mod cpp;
pub mod dispatch;
