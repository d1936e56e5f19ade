//! Filters the object tree that a D-Bus service reports down to the objects
//! that expose one interface, and writes the result as JSON.
//!
//! A service that implements `org.freedesktop.DBus.ObjectManager` answers one
//! call with everything it manages: each object path with its interfaces,
//! each interface with its properties. [`filter`] keeps the objects that
//! expose a given interface, [`serialize`] writes what was kept as one line
//! of JSON, and [`render`] does both. [`Stage`] lays down the order of a run
//! and how it ends when a step fails; the program around this library does
//! the steps, which are input and output.
//!
//! The contracts speak of maps ([`StringMap`]'s view) and of JSON documents
//! ([`json::Json`]). JSON values and text come from `serde_json`, behind the
//! few trusted functions of [`json`].

pub mod document;
pub mod failure;
pub mod graph;
pub mod json;
pub mod pipeline;
pub mod query;
pub mod render;
pub mod string_map;

pub use document::ToJson;
pub use failure::{Failure, FailureKind};
pub use graph::{filter, FilteredGraph, InterfaceSet, ManagedObjectGraph, PropertyMap};
pub use pipeline::{Action, Outcome, Stage};
pub use query::Query;
pub use render::{render, serialize};
pub use string_map::StringMap;
