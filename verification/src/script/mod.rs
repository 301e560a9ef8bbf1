//! Scripting support.

pub mod error;
pub mod lua;
pub mod native;
pub mod value;
