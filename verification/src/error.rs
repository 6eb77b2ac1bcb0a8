//! The library's error type.

use vstd::prelude::*;
use crate::text::concat;

verus! {

/// What went wrong talking to the `aurelia` launcher. Operating-system errors
/// are carried as their debug description.
#[derive(Debug)]
pub enum STError {
    /// An I/O error.
    Io(String),
    /// The `aurelia` process could not be spawned.
    Process(String),
    /// The launcher reported a problem, or its reply could not be understood.
    Problem(String),
}

/// What `format!("{:?}", s)` gives for a string: it quoted, with escapes.
pub uninterp spec fn debug_quoted(s: Seq<char>) -> Seq<char>;

/// `format!("{:?}", s)` for a string.
#[verifier::external_body]
fn debug_quote(s: &str) -> (r: String)
    ensures
        r@ == debug_quoted(s@),
{
    format!("{:?}", s)
}

/// The user-facing description of an error.
pub open spec fn describe_spec(e: STError) -> Seq<char> {
    match e {
        STError::Process(d) => "An error occured spawning the aurelia process. Is the `aurelia` CLI installed and on your PATH?\n"@ + d@,
        STError::Io(d) => "Io("@ + d@ + ")"@,
        STError::Problem(m) => "Problem("@ + debug_quoted(m@) + ")"@,
    }
}

impl STError {
    /// The user-facing description: a spawn failure explains that the
    /// `aurelia` binary must be installed; any other error shows its variant
    /// and payload.
    pub fn describe(&self) -> (r: String)
        ensures
            r@ == describe_spec(*self),
    {
        match self {
            STError::Process(d) => concat(
                "An error occured spawning the aurelia process. Is the `aurelia` CLI installed and on your PATH?\n",
                d.as_str(),
            ),
            STError::Io(d) => {
                let a = concat("Io(", d.as_str());
                concat(a.as_str(), ")")
            },
            STError::Problem(m) => {
                let q = debug_quote(m.as_str());
                let a = concat("Problem(", q.as_str());
                concat(a.as_str(), ")")
            },
        }
    }
}

} // verus!
