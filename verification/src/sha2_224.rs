//! The SHA-2 224 subcommand: its operands and options.

use vstd::prelude::*;

use crate::{Args, Options};

verus! {

/// Calculate SHA-2 224 digest.
#[derive(Clone, Debug)]
pub struct Subcommand {
    pub args: Args,
    pub options: Options,
}

} // verus!
