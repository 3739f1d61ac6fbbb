//! State machines behind the pages of a small administration console for
//! door access records.
//!
//! Every page owns a model, consumes tagged messages through a pure
//! transition, and may ask its runtime to carry out one network operation at
//! a time.  The outcome of that operation comes back as another message.
//! Nothing in this crate performs I/O or paints markup: a page hands out
//! plain values that say what to send and what to show.

pub mod models;
pub mod text;
pub mod api;
pub mod runtime;
pub mod pages;
