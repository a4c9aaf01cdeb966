//! A deterministic engine that quantizes a fractal-noise height field into a
//! rectangular grid of ASCII symbols.
//!
//! Heights and noise parameters are carried as fixed-point integers (millionths),
//! so that quantization, palette lookup and grid assembly are exact. Evaluating
//! the continuous noise function itself is left to the caller, which hands the
//! sampled heights back in as plain values.

pub mod args;
pub mod config;
pub mod engine;
pub mod grid;
pub mod mapper;
