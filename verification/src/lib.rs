//! A verified driver core for sending SMS messages through a GSM modem on a
//! serial port, speaking the Hayes/GSM "AT command" text protocol.
//!
//! The crate holds the protocol logic: building the command lines, the body
//! payload with its 0x1A terminator, interpreting the modem's textual
//! response, classifying enumerated ports, and the session state machine that
//! decides each step of a send operation. The surrounding program performs
//! the serial I/O and the fixed dwell times that the state machine prescribes.

pub mod ports;
pub mod protocol;
pub mod session;
pub mod text;
