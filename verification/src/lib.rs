//! Keystroke capture pipeline: device classification and selection, the
//! event reader's resynchronisation state machine, and the tally that turns
//! key presses into periodic reports.

pub mod device;
pub mod event;
pub mod input;
pub mod pixela;
pub mod reader;
pub mod tally;
