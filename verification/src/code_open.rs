//! The code-visibility policy attached to a submission: whether the submitted
//! source is shown to everyone, to nobody, or only once the solution is
//! accepted, together with its strict textual forms.

use vstd::prelude::*;

verus! {

/// Visibility of a submitted solution's source code.
#[derive(Debug, Clone, Copy, PartialEq, Eq, Structural)]
pub enum CodeOpen {
    /// Source is always public (wire token `"open"`).
    Yes,
    /// Source is never public (wire token `"close"`).
    No,
    /// Source becomes public only on an accepted verdict
    /// (wire token `"onlyaccepted"`).
    YesOnAc,
}

impl DeepView for CodeOpen {
    type V = CodeOpen;

    open spec fn deep_view(&self) -> CodeOpen {
        *self
    }
}

/// Failure to read a code-visibility token: the input was not one of the
/// three accepted literals `y`, `n`, `ac`.
#[derive(Debug, Clone, Copy, PartialEq, Eq, Structural)]
pub struct ParseError;

/// The policy, if any, that a raw token denotes: exactly `"y"`, `"n"` and
/// `"ac"` are accepted, with no trimming and no case folding.
pub open spec fn spec_parse_code_open(s: Seq<char>) -> Option<CodeOpen> {
    if s == "y"@ {
        Some(CodeOpen::Yes)
    } else if s == "n"@ {
        Some(CodeOpen::No)
    } else if s == "ac"@ {
        Some(CodeOpen::YesOnAc)
    } else {
        None
    }
}

/// The fixed wire token a policy is encoded as for the submission request.
pub open spec fn spec_wire_string(c: CodeOpen) -> Seq<char> {
    match c {
        CodeOpen::Yes => "open"@,
        CodeOpen::No => "close"@,
        CodeOpen::YesOnAc => "onlyaccepted"@,
    }
}

impl CodeOpen {
    /// Parse a raw code-visibility token. Accepts exactly `"y"`, `"n"`
    /// and `"ac"`; every other string is rejected with a typed error.
    pub fn from_str(s: &str) -> (r: Result<CodeOpen, ParseError>)
        ensures
            spec_parse_code_open(s@) matches Some(c) ==> r == Ok::<CodeOpen, ParseError>(c),
            spec_parse_code_open(s@) is None ==> r == Err::<CodeOpen, ParseError>(ParseError),
    {
        if crate::strutil::str_eq(s, "y") {
            Ok(CodeOpen::Yes)
        } else if crate::strutil::str_eq(s, "n") {
            Ok(CodeOpen::No)
        } else if crate::strutil::str_eq(s, "ac") {
            Ok(CodeOpen::YesOnAc)
        } else {
            Err(ParseError)
        }
    }

    /// Encode the policy as its wire token: `"open"`, `"close"` or
    /// `"onlyaccepted"`.
    pub fn to_string(&self) -> (r: String)
        ensures
            r@ == spec_wire_string(*self),
    {
        match self {
            CodeOpen::Yes => String::from_str("open"),
            CodeOpen::No => String::from_str("close"),
            CodeOpen::YesOnAc => String::from_str("onlyaccepted"),
        }
    }
}

impl ParseError {
    /// Human-readable description of the failure, naming the accepted tokens.
    pub fn message(&self) -> (r: String)
        ensures
            r@ == "provided string was not `y`, `n`, or `ac`"@,
    {
        String::from_str("provided string was not `y`, `n`, or `ac`")
    }
}

} // verus!
