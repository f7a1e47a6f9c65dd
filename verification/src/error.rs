//! The ways in which an operation is refused.

use vstd::prelude::*;

verus! {

/// Why an operation was refused. Every refusal leaves the state it was asked
/// to change as it found it.
#[derive(Clone, Copy, Debug, PartialEq, Eq, Structural)]
pub enum ErrorCode {
    /// An attribute that every event carries is absent.
    MissingAttribute,
    /// The caller does not hold the role that the operation asks for.
    InvalidAuthority,
    /// The minted counter cannot be advanced within its width.
    NumericOverflow,
    /// The event has issued as many tickets as it has capacity for.
    MaximumTicketsReached,
    /// The ticket carries a scan record already.
    AlreadyScanned,
    /// The manager exists already.
    AlreadyInitialized,
    /// The capacity attribute is not the text of an unsigned number.
    MalformedCapacity,
}

impl ErrorCode {
    /// The text shown for each refusal.
    pub open spec fn spec_message(self) -> Seq<char> {
        match self {
            ErrorCode::MissingAttribute => "The attribute is missing."@,
            ErrorCode::InvalidAuthority => "Invalid Authority"@,
            ErrorCode::NumericOverflow => "Numeric Overflow"@,
            ErrorCode::MaximumTicketsReached => "MaximumTicketsReached"@,
            ErrorCode::AlreadyScanned => "Already Scanned"@,
            ErrorCode::AlreadyInitialized => "Already Initialized"@,
            ErrorCode::MalformedCapacity => "Malformed Capacity"@,
        }
    }

    /// The text shown for this refusal.
    pub fn message(&self) -> (text: &'static str)
        ensures
            text@ == self.spec_message(),
    {
        match self {
            ErrorCode::MissingAttribute => "The attribute is missing.",
            ErrorCode::InvalidAuthority => "Invalid Authority",
            ErrorCode::NumericOverflow => "Numeric Overflow",
            ErrorCode::MaximumTicketsReached => "MaximumTicketsReached",
            ErrorCode::AlreadyScanned => "Already Scanned",
            ErrorCode::AlreadyInitialized => "Already Initialized",
            ErrorCode::MalformedCapacity => "Malformed Capacity",
        }
    }
}

} // verus!
