//! A line-oriented shell confined to the paths it is given: the quoting
//! parser, working-directory resolution, command dispatch and the effect of
//! each command, with the reading and writing left to the caller.

pub mod text;
pub mod quoting;
pub mod workdir;
pub mod command;
pub mod shell;
pub mod session;
pub mod laws;
