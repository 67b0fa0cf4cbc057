pub mod command;
pub mod diagnostics;
pub mod format;
pub mod geometry;
pub mod locator;
pub mod request;
pub mod text;
