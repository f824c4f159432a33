//! Decoding of raw keyboard input events and the bounded history of
//! pressed keys that an on-screen overlay shows.
pub mod display;
pub mod event;
pub mod labels;
