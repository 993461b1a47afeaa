//! Embedding generation behind a C-style boundary: a registry of providers
//! selected by method code, per-thread caches of backend state, and the
//! marshaling rules that turn borrowed caller buffers into validated text and
//! results back into an owned, explicitly released batch.
pub mod codes;
pub mod text;
pub mod local;
pub mod registry;
pub mod marshal;
pub mod cache;
pub mod remote;
