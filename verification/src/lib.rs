//! Verified core of a gamepad bridge: decoding joystick event records,
//! tracking the state of the one attached gamepad, and framing the status
//! documents that are streamed to a display client.

pub mod descriptor;
pub mod event;
pub mod frame;
pub mod gamepad;
pub mod locator;
pub mod report;
pub mod session;
