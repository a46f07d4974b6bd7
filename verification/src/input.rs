//! One addressable unit of work: a filesystem path or standard input.

use vstd::prelude::*;

verus! {

/// A target to digest.  `Path` displays as the path itself, `Stdin` as a
/// fixed sentinel.  A target is immutable once constructed.
#[derive(Clone, Debug, Eq, PartialEq)]
pub enum Input {
    Path(String),
    Stdin,
}

impl Input {
    /// The display form of this target.
    pub open spec fn spec_display(self) -> Seq<char> {
        match self {
            Input::Path(path) => path@,
            Input::Stdin => "<stdin>"@,
        }
    }

    /// Returns the display form: the path itself, or the stdin sentinel.
    pub fn display(&self) -> (r: String)
        ensures
            r@ == self.spec_display(),
    {
        match self {
            Input::Path(path) => path.clone(),
            Input::Stdin => "<stdin>".to_owned(),
        }
    }
}

impl From<String> for Input {
    /// Wraps a path in a target.
    fn from(value: String) -> (r: Self) {
        Input::Path(value)
    }
}

impl vstd::std_specs::convert::FromSpecImpl<String> for Input {
    open spec fn obeys_from_spec() -> bool {
        true
    }

    open spec fn from_spec(value: String) -> Self {
        Input::Path(value)
    }
}

} // verus!
