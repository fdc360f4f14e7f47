use vstd::prelude::*;

verus! {

/// The rule that a candidate name broke.
#[derive(Debug, Clone, Copy, PartialEq, Eq, Structural)]
pub enum ErrorKind {
    InBlackList,
    LessThanZero,
    LongerThanMax,
    ContainsCapitalLetter,
    NotUrlSafe,
    InvalidCharacter,
    StartsWithAPeriod,
    StartsWithAnUnderscore,
}

/// Why a candidate name was rejected: exactly one broken rule.
#[derive(Debug, Clone, Copy, PartialEq, Eq, Structural)]
pub struct Error {
    pub kind: ErrorKind,
}

impl Error {
    /// The rule that was broken.
    pub fn kind(&self) -> (r: ErrorKind)
        ensures
            r == self.kind,
    {
        self.kind
    }

    /// A human-readable description of the broken rule, for logs and messages.
    pub fn message(&self) -> (r: &'static str)
        ensures
            r == message_of(self.kind),
    {
        match self.kind {
            ErrorKind::InBlackList => "in black list",
            ErrorKind::LessThanZero => "less than zero",
            ErrorKind::LongerThanMax => "longer than max: 214",
            ErrorKind::ContainsCapitalLetter => "contains capital letter",
            ErrorKind::NotUrlSafe => "not url safe",
            ErrorKind::InvalidCharacter => "invalid character",
            ErrorKind::StartsWithAPeriod => "starts with a period",
            ErrorKind::StartsWithAnUnderscore => "starts with an underscore",
        }
    }
}

/// The human-readable description of each kind of error.
pub open spec fn message_of(kind: ErrorKind) -> &'static str {
    match kind {
        ErrorKind::InBlackList => "in black list",
        ErrorKind::LessThanZero => "less than zero",
        ErrorKind::LongerThanMax => "longer than max: 214",
        ErrorKind::ContainsCapitalLetter => "contains capital letter",
        ErrorKind::NotUrlSafe => "not url safe",
        ErrorKind::InvalidCharacter => "invalid character",
        ErrorKind::StartsWithAPeriod => "starts with a period",
        ErrorKind::StartsWithAnUnderscore => "starts with an underscore",
    }
}

impl From<ErrorKind> for Error {
    fn from(kind: ErrorKind) -> (r: Error)
        ensures
            r.kind == kind,
    {
        Error { kind }
    }
}

impl vstd::std_specs::convert::FromSpecImpl<ErrorKind> for Error {
    open spec fn obeys_from_spec() -> bool {
        true
    }

    open spec fn from_spec(kind: ErrorKind) -> Error {
        Error { kind }
    }
}

} // verus!
