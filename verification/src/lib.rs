//! A debugging pass counter.
//!
//! The library keeps a counter that starts at zero and grows by one on each
//! increment-and-read call, and renders, for each logged pass, a line of the
//! form `[Pass <count>][Line <line>]`, optionally followed by a message.
//! Printing the line and holding a process-wide counter are left to the
//! caller; the counting and the rendering are verified here.

pub mod counter;
pub mod render;
