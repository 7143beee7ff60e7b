//! The built-in component libraries.

pub mod gates;
