//! Verified core of a bridge between a HID scanning device and a user-chosen
//! command: decoding of raw reports into lines, the status lines of a
//! dispatch, the capture loop as a state machine, and the rendering of
//! discovered devices.

pub mod capture;
pub mod decoder;
pub mod discovery;
pub mod dispatch;
pub mod error;
pub mod report;
pub mod session;
pub mod text;
pub mod transport;
