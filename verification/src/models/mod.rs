//! Records shared by all pages.

pub mod door;
