//! Identify which input device is the keyboard and which is the mouse from
//! the events they produce.
//!
//! The verified part holds the event model, the decisions of the
//! non-blocking event source, the classifiers and the capability tables.
//! Opening device nodes, waiting for readability and merging the sources
//! happen around it.
pub mod event;
pub mod error;
pub mod classify;
pub mod source;
pub mod capability;
pub mod inject;
