//! Decision logic of a development-loop supervisor: it builds a project, runs the
//! resulting binary with a listening socket handed down to it, and reacts to file
//! changes, operator signals and the exits of the child process.

pub mod artifact;
pub mod config;
pub mod coordinator;
pub mod event;
pub mod paths;
pub mod supervisor;

pub use config::DevServer;
