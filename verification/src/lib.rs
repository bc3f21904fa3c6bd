//! A small embedding inference library: one immutable-after-load text-encoder
//! model, shared safely across many concurrent requests through a verified
//! reader-writer guard.
//!
//! The library covers the serving core: resolving which model artifacts to
//! load, building the model state once, turning a request's text into
//! model-ready input, running the encoder's forward pass, and sharing the
//! loaded state across readers with full read/write exclusion.

pub mod artifacts;
pub mod errors;
pub mod guard;
pub mod model;
pub mod tokens;
