//! Decision logic of the sentinel resource monitor: command-line dispatch,
//! configuration resolution, init-system detection, the service
//! installation and removal plans, and the Discord notifications it sends.

pub mod cli;
pub mod config;
pub mod error;
pub mod init;
pub mod lifecycle;
pub mod notify;
pub mod plan;
pub mod service;
pub mod text;

use vstd::prelude::*;

verus! {

} // verus!
