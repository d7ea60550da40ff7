//! Raw-mode terminal handling for full-screen text programs.
//!
//! The crate holds the decisions of a terminal front end: which mode bits raw
//! mode clears, how the window size is found, and how the byte stream of the
//! keyboard becomes logical keys. It performs no input or output itself. Each
//! component says what the caller has to read or write next and takes the
//! caller's answer as a plain value.
//!
//! The mode bits of raw mode come from `libc` and are held to the values
//! that it defines for Linux on x86-64.

pub mod attributes;
pub mod decoder;
pub mod error;
pub mod geometry;
pub mod keys;
pub mod terminal;

pub use attributes::{ModeBits, TerminalAttributes};
pub use decoder::{Input, KeyDecoder, Phase};
pub use error::TermError;
pub use geometry::{GeometryResolver, ProbeEvent, Stage};
pub use keys::{ctrl_key, Key, Motion};
pub use terminal::{check_write, Teardown, Terminal};
