//! What can go wrong with the store and with what the user typed, and the
//! text that reports it.

use vstd::prelude::*;
use vstd::string::StringExecFns;

verus! {

/// What is wrong with what the user typed.
#[derive(Debug, Clone, Copy, PartialEq, Eq, Structural)]
pub enum InvalidInput {
    /// The message is empty once the blanks around it are gone.
    EmptyMessage,
    /// The message holds a line feed or a carriage return.
    MessageWithNewLine,
    /// The message ID is missing or is no number.
    InvalidMessageId,
    /// The message ID names no stored entry.
    OutOfBoundMessageId,
}

/// Why a log operation was refused.
#[derive(Debug, Clone, Copy, PartialEq, Eq, Structural)]
pub enum VentError {
    /// The user's input cannot be taken.
    InvalidInput(InvalidInput),
    /// A stored line has no comma, and so no date: the store is damaged.
    MalformedRecord,
    /// The text handed in as the present time is not written as a date is.
    InvalidTimestamp,
}

impl VentError {
    /// The text of the report.
    pub open spec fn message_spec(self) -> Seq<char> {
        match self {
            VentError::InvalidInput(InvalidInput::EmptyMessage) => "Empty message"@,
            VentError::InvalidInput(InvalidInput::MessageWithNewLine) => "Message contains new line"@,
            VentError::InvalidInput(InvalidInput::InvalidMessageId) => "Invalid message ID"@,
            VentError::InvalidInput(InvalidInput::OutOfBoundMessageId) => "Out-of-bound message ID"@,
            VentError::MalformedRecord => "No date in entry"@,
            VentError::InvalidTimestamp => "Invalid timestamp"@,
        }
    }

    /// The text of the report.
    pub fn message(&self) -> (r: String)
        ensures
            r@ == self.message_spec(),
    {
        match self {
            VentError::InvalidInput(InvalidInput::EmptyMessage) => String::from_str(
                "Empty message",
            ),
            VentError::InvalidInput(InvalidInput::MessageWithNewLine) => String::from_str(
                "Message contains new line",
            ),
            VentError::InvalidInput(InvalidInput::InvalidMessageId) => String::from_str(
                "Invalid message ID",
            ),
            VentError::InvalidInput(InvalidInput::OutOfBoundMessageId) => String::from_str(
                "Out-of-bound message ID",
            ),
            VentError::MalformedRecord => String::from_str("No date in entry"),
            VentError::InvalidTimestamp => String::from_str("Invalid timestamp"),
        }
    }
}

} // verus!
