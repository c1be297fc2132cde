//! A compile-time generator of safe wrapper functions around foreign
//! (C-ABI) library entry points.
//!
//! Given a declarative list of foreign function signatures plus per-scope,
//! per-function and per-argument configuration, the library builds, for each
//! declared function, a plan holding (a) the raw foreign declaration under a
//! chosen calling convention and link directive and (b) an idiomatic wrapper
//! that marshals its arguments (strings, slices, vectors, arrays, options,
//! conversion bounds) into raw pointers, invokes the foreign symbol, and
//! interprets the result through a configurable error-detection predicate.
//! The plans are rendered as text, one emitted unit per configuration scope.

pub mod model;
pub mod text;
pub mod lexcheck;
pub mod cffi_error;
pub mod attrs;
pub mod classifier;
pub mod render;
pub mod plan;
pub mod emit;
pub mod dxlib;
