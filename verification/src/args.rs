//! Global configuration.

use vstd::prelude::*;

use crate::commands::Command;
use crate::error::{Error, ErrorKind};

verus! {

/// The program's parsed invocation: the selected command.
#[derive(Clone, Debug)]
pub struct Args {
    pub command: Command,
}

impl Args {
    /// Checks the selected command's configuration; every fault found
    /// here is a configuration error, raised before any network work.
    pub fn execute(&self) -> (r: Result<(), Error>)
        ensures
            match self.command.spec_check() {
                None => r is Ok,
                Some(m) => r matches Err(e) && e.kind == ErrorKind::Config && e.message@ == m,
            },
    {
        self.command.execute()
    }
}

} // verus!
