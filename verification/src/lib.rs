//! Digest reporting for a fixed set of independent targets.
//!
//! The crate models the orchestration core of a checksum tool: a finite
//! sequence of targets (paths or standard input) is enumerated up front, a
//! digest is computed for each one, and every target is reported with exactly
//! one formatted line while the per-target outcomes are folded into a single
//! binary process status.  Digest computation itself, filesystem access and
//! terminal styling are collaborators outside this crate; everything that
//! decides, formats or aggregates lives here with a contract.

use vstd::prelude::*;

pub mod color;
pub mod engine;
pub mod input;
pub mod md5;
pub mod outcome;
pub mod sha1;
pub mod sha2_224;
pub mod sha2_256;
pub mod sha2_384;
pub mod sha2_512;
pub mod text;

pub use crate::color::Color;
use crate::input::Input;

verus! {

/// Process status for a run in which every target succeeded.
pub const EXITCODE_OK: i32 = 0;

/// Process status for a run in which at least one target failed.
pub const EXITCODE_IOERR: i32 = 74;

/// Process status for a malformed invocation; no target is ever dispatched.
pub const EXITCODE_USAGE: i32 = 64;

/// A whole invocation: the chosen algorithm with its operands, and the
/// global color mode.
#[derive(Clone, Debug)]
pub struct Command {
    pub subcommand: Subcommand,
    pub color: Color,
}

/// The algorithm selected for a run; each variant carries the same operands,
/// and one generic engine serves them all.
#[derive(Clone, Debug)]
pub enum Subcommand {
    MD5(md5::Subcommand),
    SHA1(sha1::Subcommand),
    SHA2_224(sha2_224::Subcommand),
    SHA2_256(sha2_256::Subcommand),
    SHA2_384(sha2_384::Subcommand),
    SHA2_512(sha2_512::Subcommand),
}

/// The path operands of one invocation.
#[derive(Clone, Debug)]
pub struct Args {
    pub paths: Vec<String>,
}

/// The options of one invocation.
#[derive(Clone, Copy, Debug)]
pub struct Options {
    pub stdin: bool,
}

/// A malformed invocation, detected before any target is dispatched.
#[derive(Clone, Copy, Debug, Eq, PartialEq)]
pub enum UsageError {
    /// Stdin mode and path operands are mutually exclusive.
    StdinWithPaths,
    /// Neither stdin mode nor a path operand was given.
    MissingOperands,
}

/// Enumerates the targets of one invocation, before anything is dispatched:
/// exactly the stdin singleton in stdin mode, otherwise one path target per
/// operand, in order, with no deduplication and no expansion.  Stdin mode
/// and path operands are mutually exclusive, and one of the two is required;
/// a usage error enumerates no target at all.
pub fn plan_targets(args: &Args, options: &Options) -> (r: Result<Vec<Input>, UsageError>)
    ensures
        (r matches Err(UsageError::StdinWithPaths)) <==> (options.stdin && args.paths@.len()
            > 0),
        (r matches Err(UsageError::MissingOperands)) <==> (!options.stdin && args.paths@.len()
            == 0),
        r matches Ok(targets) ==> {
            &&& targets@.len() == (if options.stdin {
                1int
            } else {
                args.paths@.len() as int
            })
            &&& forall|i: int|
                0 <= i < targets@.len() ==> targets@[i] == (if options.stdin {
                    Input::Stdin
                } else {
                    Input::Path(args.paths@[i])
                })
        },
{
    if options.stdin {
        if args.paths.len() > 0 {
            return Err(UsageError::StdinWithPaths);
        }
        let mut targets: Vec<Input> = Vec::new();
        targets.push(Input::Stdin);
        Ok(targets)
    } else {
        if args.paths.len() == 0 {
            return Err(UsageError::MissingOperands);
        }
        let mut targets: Vec<Input> = Vec::new();
        let mut i: usize = 0;
        while i < args.paths.len()
            invariant
                i <= args.paths@.len(),
                targets@.len() == i,
                forall|k: int| 0 <= k < i ==> targets@[k] == Input::Path(args.paths@[k]),
            decreases args.paths@.len() - i,
        {
            targets.push(Input::Path(args.paths[i].clone()));
            i = i + 1;
        }
        Ok(targets)
    }
}

} // verus!
