//! The pages of the console, one state machine each.

pub mod door;
pub mod doors;
pub mod home;
