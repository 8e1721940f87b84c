//! Compile-time interface synthesizer for single-field wrapper records.
//!
//! Given the structural description of a wrapper type — a record with exactly
//! one field whose declared type is a parameterized container — this crate
//! classifies the container's shape, selects the requested capabilities, and
//! emits one self-contained implementation fragment per capability, threading
//! the wrapper's original generic parameters through every fragment.

pub mod model;

pub mod descriptor;

pub mod analyzer;

pub mod selector;

pub mod render;

pub mod generator;

pub mod sequences;

pub mod mappings;
