//! Verified core of an audio-to-text command-line tool: which WAV files are
//! accepted, how their samples are prepared for the speech model, and which
//! commands normalise an input file beforehand.

pub mod command;
pub mod format;
pub mod reader;
pub mod session;

pub use command::{exec, mktemp, normalize};
pub use reader::read_wav;
pub use session::transcript;
