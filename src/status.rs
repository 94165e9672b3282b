use vstd::prelude::*;

verus! {

broadcast use vstd::string::to_string_from_display_ensures_for_str;

/// Where a proposal stands in its lifecycle.
#[derive(Clone, Copy, Debug, PartialEq, Eq, Structural)]
pub enum Status {
    /// The proposal is open for voting.
    Open,
    /// The proposal has been rejected.
    Rejected,
    /// The proposal has been passed but has not been executed.
    Passed,
    /// The proposal has been passed and executed.
    Executed,
    /// The proposal has failed or expired and has been closed. A
    /// proposal deposit refund has been issued if applicable.
    Closed,
}

/// The lower-case name of a status.
pub open spec fn status_name(s: Status) -> Seq<char> {
    match s {
        Status::Open => "open"@,
        Status::Rejected => "rejected"@,
        Status::Passed => "passed"@,
        Status::Executed => "executed"@,
        Status::Closed => "closed"@,
    }
}

impl Status {
    /// The lower-case name of the status, as shown to users.
    pub fn to_string(&self) -> (r: String)
        ensures
            r@ == status_name(*self),
    {
        match self {
            Status::Open => "open".to_string(),
            Status::Rejected => "rejected".to_string(),
            Status::Passed => "passed".to_string(),
            Status::Executed => "executed".to_string(),
            Status::Closed => "closed".to_string(),
        }
    }
}

} // verus!
