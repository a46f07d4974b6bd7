//! The color mode recognized on the command line.

use vstd::prelude::*;

use crate::text::{lower_of, lowercase};

verus! {

/// Whether failure lines are styled: always, only on a terminal, or never.
/// The mode affects styling alone, never the textual content of a line.
#[derive(Clone, Copy, Debug, Eq, PartialEq)]
pub enum Color {
    Always,
    Auto,
    Never,
}

/// The color mode spelled by a character sequence, if it spells one.
pub open spec fn parse_color(s: Seq<char>) -> Option<Color> {
    if s == "auto"@ {
        Some(Color::Auto)
    } else if s == "always"@ {
        Some(Color::Always)
    } else if s == "never"@ {
        Some(Color::Never)
    } else {
        None
    }
}

impl Color {
    /// The display form of this color mode.
    pub open spec fn spec_str(self) -> Seq<char> {
        match self {
            Color::Always => "always"@,
            Color::Auto => "auto"@,
            Color::Never => "never"@,
        }
    }

    /// Returns the name under which this mode is recognized.
    pub fn as_str(&self) -> (r: &'static str)
        ensures
            r@ == self.spec_str(),
    {
        match self {
            Color::Always => "always",
            Color::Auto => "auto",
            Color::Never => "never",
        }
    }

    /// Parses a color mode, case-insensitively on request; any other input
    /// is rejected with a fixed message.
    pub fn from_str(input: &str, ignore_case: bool) -> (r: Result<Color, String>)
        ensures
            ({
                let folded = if ignore_case {
                    lower_of(input@)
                } else {
                    input@
                };
                match parse_color(folded) {
                    Some(color) => r == Ok::<Color, String>(color),
                    None => r matches Err(message) && message@ == "unrecognized option"@,
                }
            }),
    {
        let folded = if ignore_case {
            lowercase(input)
        } else {
            input.to_owned()
        };
        if folded == "auto".to_owned() {
            Ok(Color::Auto)
        } else if folded == "always".to_owned() {
            Ok(Color::Always)
        } else if folded == "never".to_owned() {
            Ok(Color::Never)
        } else {
            Err("unrecognized option".to_owned())
        }
    }
}

} // verus!
