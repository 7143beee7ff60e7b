//! Domain-model core of an interactive circuit-design tool.
//!
//! The crate defines self-describing circuit component types with typed,
//! runtime-introspectable property schemas, a geometric footprint with
//! labeled pins and four-way rotation, and an identifier-keyed registry
//! that lists available component types and instantiates them by id.

mod bits;
pub mod component;
pub mod libraries;
pub mod library;
pub mod strkey;
pub mod strmap;
pub mod value;
