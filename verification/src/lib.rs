//! Compile-time synthesis of widget-binding code.
//!
//! Given the description of a record type with named, typed fields, the
//! synthesizer emits an implementation block for that type: a factory
//! method that looks each field up by name in a named-object registry
//! ("builder"), and one read-only accessor per field. The emitted block is
//! modelled as data (`EmittedUnit`) and can be rendered to source text.

pub mod model;
pub mod synth;
pub mod eval;
pub mod render;
pub mod laws;
