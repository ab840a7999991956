//! Rendering a diagram as source text, one module for each target language.

pub mod purescript;
