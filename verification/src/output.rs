//! Output selection.
//!
//! Rendering itself happens outside the library; these types only say
//! which format the embedding program is to use.

use vstd::prelude::*;

verus! {

/// The format an answer is rendered in.
#[derive(Clone, Copy, Debug, PartialEq, Eq, Structural)]
pub enum OutputFormat {
    /// Similar to dig.
    Dig,
    /// Easily readable, formatted with ANSI codes and whitespace.
    Human,
    /// Short readable format.
    Table,
}

/// Output options of a command.
#[derive(Clone, Copy, Debug)]
pub struct OutputOptions {
    pub format: OutputFormat,
}

} // verus!
