//! Interactive playback session controller.
//!
//! The controller owns the state of one playback session and decides, for
//! every engine event, user command and poll timeout, what the next state is
//! and which request the owner of the engine has to carry out. It never talks
//! to the engine or the terminal itself: the caller performs the requests and
//! feeds the results back.

pub mod analysis;
pub mod keyboard;
pub mod lifecycle;
pub mod model;
pub mod session;
pub mod trace;
