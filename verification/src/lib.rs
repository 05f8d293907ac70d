//! Repeats a string and a newline without end: the batch that is written,
//! the decisions of the write loop, and the reading of the command line.

pub mod buffer;
pub mod engine;
pub mod getopt;
pub mod request;

pub use crate::buffer::{build_buffer, fill, newline_terminate, BUFSIZE};
pub use crate::engine::{next_step, Step};
pub use crate::request::{
    help_text, join_with_spaces, parse_args, resolve, version_text, Action, Error, Parsed,
    Request, DEFAULT_STRING, DESCRIPTION, NAME, VERSION,
};
