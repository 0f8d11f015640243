//! A terminal for a serial line, as a library of decisions.
//!
//! The heart of it is the session manager of [`serial`]: a state machine that takes the
//! requests of the user interface and the answers of the device, keeps the one device
//! that is open, and says what to do next and what to report. [`laws`] holds what is
//! proved of it over whole sequences of events, [`trace`] the meaning of such a
//! sequence. [`port`] resolves the user's choices of [`data`] into the parameters of
//! the transport, and [`codec`] passes the bytes of the line through.
//!
//! The rest is what the window shows: [`event`] writes the transcript, [`formatters`]
//! reads and writes the baud rate, [`ports`] lists the ports; [`text`] and [`hexcode`]
//! are the steps that they take on characters and on hexadecimal digits.

pub mod codec;
pub mod data;
pub mod event;
pub mod formatters;
pub mod hexcode;
pub mod laws;
pub mod port;
pub mod ports;
pub mod serial;
pub mod text;
pub mod trace;
