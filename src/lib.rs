//! Launches a child process from an executable image held in memory, with an
//! interface close to that of a standard command builder.
use vstd::prelude::*;

pub mod cstr;
pub mod env;
pub mod error;
pub mod executable;
pub mod process;
pub mod report;
pub mod status;
pub mod strategy;

pub use crate::error::Error;
pub use crate::executable::{MemFdExecutable, Stdio};
pub use crate::process::Process;
pub use crate::status::{ExitStatus, ExitStatusError};

verus! {

} // verus!
