//! Why a field failed to parse, with the wording shown to the user.

use vstd::prelude::*;
use vstd::string::*;

verus! {

/// Why a text is not a 32-bit signed decimal integer.
#[derive(Clone, Copy, Debug, PartialEq, Eq, Structural)]
pub enum IntegerError {
    /// The text is empty.
    Empty,
    /// A character that is not a decimal digit, or a sign with nothing after it.
    InvalidDigit,
    /// The value is above `i32::MAX`.
    PosOverflow,
    /// The value is below `i32::MIN`.
    NegOverflow,
}

/// Why a field's raw text was refused.
#[derive(Clone, Copy, Debug, PartialEq, Eq, Structural)]
pub enum ParseError {
    /// Not one of the accepted spellings of true and false.
    InvalidBoolean,
    /// Not a 32-bit signed decimal integer.
    Integer(IntegerError),
    /// A duration that is not a number, one space, and a unit.
    DurationFormat,
    /// A duration whose unit is not known.
    DurationUnit,
    /// A duration whose number of hours does not fit in 32 bits.
    DurationRange,
    /// No text was given for the field.
    Missing,
}

/// What an action was aimed at.
#[derive(Clone, Copy, Debug, PartialEq, Eq, Structural)]
pub enum Target {
    Bot,
    Team,
}

/// A rule that the engine holds every action to before it writes anything.
#[derive(Clone, Copy, Debug, PartialEq, Eq, Structural)]
pub enum Rule {
    /// The action needs a reason and the reason is empty.
    ReasonRequired,
    /// The bot is claimed already and the claim was not forced.
    AlreadyClaimed,
    /// A premium period must be longer than zero hours, and the window that
    /// it extends must stay countable.
    PremiumPeriod,
}

/// Why an invocation did not run to a successful end.
#[derive(Clone, Copy, Debug, PartialEq, Eq, Structural)]
pub enum RpcError {
    /// The field at position `field` of the action's schema did not parse.
    Validation { field: usize, cause: ParseError },
    /// The caller is not staff.
    Unauthorized,
    /// The requested name is not in the catalog.
    UnknownAction,
    /// No bot or team has the id that the action names.
    NotFound(Target),
    /// The action that was built does not carry the name that was asked for.
    ConsistencyFault,
    /// The store failed; nothing was written.
    Persistence,
    /// The engine refused the action on one of its rules.
    Rejected(Rule),
}

impl IntegerError {
    pub open spec fn message_text(self) -> Seq<char> {
        match self {
            IntegerError::Empty => "cannot parse integer from empty string"@,
            IntegerError::InvalidDigit => "invalid digit found in string"@,
            IntegerError::PosOverflow => "number too large to fit in target type"@,
            IntegerError::NegOverflow => "number too small to fit in target type"@,
        }
    }

    /// The wording for this error.
    pub fn message(&self) -> (out: String)
        ensures
            out@ == self.message_text(),
    {
        match self {
            IntegerError::Empty => String::from_str("cannot parse integer from empty string"),
            IntegerError::InvalidDigit => String::from_str("invalid digit found in string"),
            IntegerError::PosOverflow => String::from_str(
                "number too large to fit in target type",
            ),
            IntegerError::NegOverflow => String::from_str(
                "number too small to fit in target type",
            ),
        }
    }
}

impl ParseError {
    pub open spec fn message_text(self) -> Seq<char> {
        match self {
            ParseError::InvalidBoolean => "Invalid boolean"@,
            ParseError::Integer(e) => e.message_text(),
            ParseError::DurationFormat =>
                "Invalid time format. Format must be WITH A SPACE BETWEEN THE NUMBER AND THE UNIT"@,
            ParseError::DurationUnit =>
                "Invalid time format. Unit must be years, months, weeks, days or hours"@,
            ParseError::DurationRange =>
                "Invalid time format. The period does not fit in a whole number of hours"@,
            ParseError::Missing => "No value given"@,
        }
    }

    /// The wording for this error.
    pub fn message(&self) -> (out: String)
        ensures
            out@ == self.message_text(),
    {
        match self {
            ParseError::InvalidBoolean => String::from_str("Invalid boolean"),
            ParseError::Integer(e) => e.message(),
            ParseError::DurationFormat => String::from_str(
                "Invalid time format. Format must be WITH A SPACE BETWEEN THE NUMBER AND THE UNIT",
            ),
            ParseError::DurationUnit => String::from_str(
                "Invalid time format. Unit must be years, months, weeks, days or hours",
            ),
            ParseError::DurationRange => String::from_str(
                "Invalid time format. The period does not fit in a whole number of hours",
            ),
            ParseError::Missing => String::from_str("No value given"),
        }
    }
}

} // verus!
