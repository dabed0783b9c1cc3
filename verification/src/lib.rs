//! A console log sink in the style of a compiler driver's diagnostics.
//!
//! Each record is rendered as `<program>: <label> <message>`, with the label
//! styled by severity and the continuation lines of a multi-line message set
//! off by a marker. Records at or above an escalation threshold are routed to
//! the error stream, the others to the standard stream.
//!
//! The library decides and renders; it does not write. [`Logger::log`] hands
//! back what is to be written and where, and [`Registry`] keeps the one sink
//! of a process.

pub mod layout;
pub mod logger;
pub mod registry;
pub mod severity;
pub mod style;

pub use logger::{init, init_error, Emission, Logger, Stream};
pub use registry::{AlreadyInstalled, Registry};
pub use severity::Severity;
