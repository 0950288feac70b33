//! Command handling for the base node's operator console: the command vocabulary,
//! parsing and completion of console lines, and the decisions each command makes
//! before (and after) work is handed to the node's backend services.

pub mod command;
pub mod console;
pub mod report;
pub mod text;

pub use command::{BaseNodeCommand, ParseError};
pub use console::{parse_line, Parser, Reply};
pub use report::SendRequest;
