//! The SHA-1 subcommand: its operands and options.

use vstd::prelude::*;

use crate::{Args, Options};

verus! {

/// Calculate SHA-1 digest.
#[derive(Clone, Debug)]
pub struct Subcommand {
    pub args: Args,
    pub options: Options,
}

} // verus!
