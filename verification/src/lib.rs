//! Chain-level semantics of a shader preset: the closed vocabulary of uniform
//! and sampler roles, the name rules that map shader identifiers onto it, and
//! the per-frame bookkeeping every graphics backend shares.

pub mod back;
pub mod chain;
pub mod common;
pub mod error;
pub mod names;
pub mod preprocess;
pub mod presets;
pub mod reflect;
pub mod scaling;
pub mod semantic_map;
pub mod semantics;
pub mod stage;
pub mod storage;
pub mod tables;
pub mod text;
