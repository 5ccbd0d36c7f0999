//! Verified core of a small container-runtime front end.
//!
//! The library holds the decision logic of the tool: parsing mount
//! specifications, resolving which container runtime to use, and
//! translating lifecycle verbs into the argument lists handed to the
//! runtime binary. Spawning processes and parsing the command line are
//! left to the unverified shell around the library.

pub mod command;
pub mod error;
pub mod mount;
pub mod resolve;
