//! Control core of a small four-wheeled camera robot: colour perception,
//! the motor register protocol, and the perceive/act loop that binds them.
//!
//! The library is pure: it turns captured frames into colours and labels,
//! and labels into the exact sequence of bus writes and pauses to perform.
//! Device handles and blocking calls belong to the program around it.

pub mod color;
pub mod error;
pub mod palette;
pub mod frame;
pub mod convert;
pub mod protocol;
pub mod robot;
pub mod control;
