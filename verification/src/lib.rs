//! Verified core of morlana, a set of nix-darwin utilities.
//!
//! Every decision the tool makes lives here: which commands it runs and with
//! which arguments, how it reads what those commands print, how it walks
//! through the steps of each subcommand, and the small string and path
//! manipulations in between. Running processes, touching the file system and
//! talking to the terminal is left to the binary around this library.

pub mod cli;
pub mod error;
pub mod path;
pub mod stages;
pub mod text;
pub mod util;
