//! Verified core of a serial-port terminal: port settings, the session state
//! kept between user commands, the decisions those commands make, and the
//! per-read decisions of the background reader.

pub mod settings;
pub mod text;
pub mod clock;
pub mod serial_wrapper;
pub mod session;
pub mod reader;
pub mod serial_wraper;
pub mod laws;
