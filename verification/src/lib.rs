//! A verified code-generation engine for enum derive capabilities.
//!
//! The crate models an enum declaration (`decl::EnumDecl`) as plain data and
//! builds, for each derivable capability, a structured code fragment whose
//! contents are pinned down by contracts. Evaluation functions give the
//! runtime semantics of the generated match code, and rendering functions
//! serialize fragments back to Rust source text.

pub mod capability;
pub mod decl;
pub mod derive;
pub mod emit;
pub mod eval;
pub mod fragment;
pub mod laws;
pub mod matching;
pub mod render;
pub mod textutil;
pub mod traits;
pub mod width;
