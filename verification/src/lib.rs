//! Administrative panel core for a directory's user-attribute schema.
//!
//! The crate holds the logic of a remote-backed table component: the message
//! reducer that owns the attribute list, the generic dispatch step that turns
//! a reducer failure into a displayed error, and the projection from state to
//! a display tree. Rendering surfaces and the query transport live outside;
//! they hand plain values in and take plain values back.

pub mod components;
pub mod infra;
