//! The building blocks of the subcommands: the commands each stage runs and
//! how it reads what they report.

pub mod activate;
pub mod bootstrap;
pub mod build_stage;
pub mod diff;
pub mod profile;
