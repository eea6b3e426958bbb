//! The rules behind the commands, apart from what they print and run.

pub mod clone;
pub mod complete;
pub mod foreach;
pub mod man;
pub mod prompt;
pub mod pull;
pub mod rm;
pub mod status;
