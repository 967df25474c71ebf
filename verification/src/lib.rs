//! Verified control logic for a small fleet of Raspberry Pi Zero robots:
//! command decoding, motor pin sequencing, joystick steering and the
//! small pieces of stream handling that sit between the hardware and the
//! network.

pub mod text;
pub mod commands;
pub mod drive;
pub mod keyboard;
pub mod scout;
pub mod joystick;
pub mod console;
pub mod pulse;
pub mod remote;
pub mod stream;
pub mod sweep;
pub mod agreement;
