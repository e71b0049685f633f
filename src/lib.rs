//! Verified access by dynamic value to the typed reactive cells and plain
//! fields of UI items: reading, writing, binding, animating and linking them
//! through one closed set of dynamic value shapes. Each accessor is used with
//! the store of its cell's concrete type, which the caller names.
pub mod animation;
pub mod info;
pub mod laws;
pub mod property;
pub mod registry;
pub mod value;
