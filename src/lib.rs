//! Control-plane logic for a supervised proxy engine: duration and traffic
//! parsing for the command line, the request set of the local control
//! channel and its framing, the singleton lock, and the user directory with
//! its provisioning fan-out.
use vstd::prelude::*;

pub mod text;
pub mod datetime;
pub mod types;
pub mod api;
pub mod commands;
pub mod framing;
pub mod lock;
pub mod directory;
pub mod reconcile;
pub mod supervisor;


verus! {

} // verus!
