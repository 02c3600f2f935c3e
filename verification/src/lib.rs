//! A log console for a polling user interface.
//!
//! Writers gather log text into lines and hand each finished line to a
//! channel; once per frame the console takes the queued lines out of the
//! channel, classifies each by the severity tag that it holds, and retains
//! the newest of them for display.

pub mod channel;
pub mod chars;
pub mod console;
pub mod severity;
pub mod writer;

pub use crate::console::{new_logger, new_logger_with, Message, MyLogger, MAX_MESSAGES};
pub use crate::severity::{Rule, Severity};
pub use crate::writer::LogWriter;
