use vstd::prelude::*;

verus! {

/// The failures a grant can report: the grant was revoked, or it was
/// constructed from parameters that break a structural rule (the message
/// names the rule).
#[derive(Debug, Clone, PartialEq)]
pub enum VestingError {
    Revoked,
    ConfigurationError(&'static str),
}

} // verus!
