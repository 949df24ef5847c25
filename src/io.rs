//! Builtins related to input and output formats.

pub mod jwt;
