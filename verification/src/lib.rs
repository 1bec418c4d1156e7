//! Bindings generator for a reflected host object model, together with the
//! calling convention that the generated bindings target.
//!
//! The generator turns a snapshot of the host's classes, properties, methods
//! and operators into one module of trait declarations and their
//! implementations for the handle type. Every step up to the text of that
//! module is verified against a mathematical model of the emitted items.
//!
//! - [`schema`] holds the descriptors of a snapshot.
//! - [`types`] maps a descriptor onto the types under which it is read and
//!   written; [`collections`] and [`registry`] see to it that each kind of
//!   collection gets one interface.
//! - [`codegen`] emits the interface of a class and the callables of the
//!   operators, [`module`] a whole run; [`model`] holds what they emit.
//! - [`render`] writes the emitted items as text, which [`syntax`] parses.
//! - [`wire`] and [`envelope`] hold the values and the requests that the
//!   emitted members exchange with the host.

pub mod codegen;
pub mod collections;
pub mod envelope;
pub mod model;
pub mod module;
pub mod naming;
pub mod registry;
pub mod render;
pub mod schema;
pub mod syntax;
pub mod types;
pub mod wire;

pub use crate::envelope::Kwargs;
pub use crate::envelope::PyArgs;
pub use crate::wire::BpyPtr;
