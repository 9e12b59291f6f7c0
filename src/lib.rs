//! Multi-site file mover: the decision logic of a batch of FTP / FTPS / SFTP
//! transfer rules, with the session lifecycle of each rule written as a state
//! machine whose driver performs the network work.

pub mod cli;
pub mod config;
pub mod driver;
pub mod engine;
pub mod instance;
pub mod logging;
pub mod pattern;
pub mod protocol;
pub mod shutdown;
pub mod staging;
pub mod text;

use vstd::prelude::*;

verus! {

/// Name of the program, used for the instance lock and control socket paths.
pub const PROGRAM_NAME: &'static str = "iftpfm2";

/// Version of the program, reported by `-v` and in the start and end records.
pub const PROGRAM_VERSION: &'static str = "2.1.0";

} // verus!
