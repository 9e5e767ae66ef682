//! The closed set of status and error tokens the firmware reports, and the
//! line framing used on the transmission channel.

use vstd::prelude::*;

verus! {

/// A message bound for the output transport.  `StatusIdle` and
/// `StatusMoving` are the motion core's own notifications; the error
/// tokens belong to the command-input collaborator and are carried on the
/// same channel.
#[derive(Clone, Copy, PartialEq, Eq, Structural, Debug)]
pub enum Message {
    StatusIdle,
    StatusMoving,
    ErrorInvalidUtf8,
    ErrorMissingArgs,
    ErrorInvalidNumbers,
}

impl Message {
    /// The textual token of this message.
    pub open spec fn spec_token(self) -> Seq<char> {
        match self {
            Message::StatusIdle => "STATUS IDLE"@,
            Message::StatusMoving => "STATUS MOVING"@,
            Message::ErrorInvalidUtf8 => "ERROR INVALID_UTF8"@,
            Message::ErrorMissingArgs => "ERROR MISSING_ARGS"@,
            Message::ErrorInvalidNumbers => "ERROR INVALID_NUMBERS"@,
        }
    }

    /// The token as emitted, one fixed string per message.
    pub fn token(&self) -> (r: &'static str)
        ensures
            r@ == self.spec_token(),
    {
        match self {
            Message::StatusIdle => "STATUS IDLE",
            Message::StatusMoving => "STATUS MOVING",
            Message::ErrorInvalidUtf8 => "ERROR INVALID_UTF8",
            Message::ErrorMissingArgs => "ERROR MISSING_ARGS",
            Message::ErrorInvalidNumbers => "ERROR INVALID_NUMBERS",
        }
    }

    /// The full line the output transport writes for this message: the
    /// token followed by a newline.
    pub fn transmission_line(&self) -> (r: String)
        ensures
            r@ == self.spec_token() + "\n"@,
    {
        let mut line = String::from_str(self.token());
        line.append("\n");
        line
    }
}

} // verus!
