//! A large HH:MM:SS clock and timer: the time model, the wiggle animation,
//! the frame pacing arithmetic, the fitting layout and the digit atlas
//! addressing, all over integers.
pub mod args;
pub mod atlas;
pub mod layout;
pub mod time_model;
pub mod wiggle;
pub mod frame_clock;
pub mod title;
pub mod session;
mod wall_clock;
