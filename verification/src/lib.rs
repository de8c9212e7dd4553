//! Verified core of `bpfctl`, the command line client of the bpfd daemon:
//! the program and attach-point model, the parsing of command line values,
//! the requests sent to the daemon and the tables shown to the user.
pub mod bpf;
pub mod text;
pub mod codec;
pub mod keyed;
pub mod messages;
pub mod cli;
pub mod parse;
pub mod table;
pub mod request;
pub mod report;
pub mod laws;
