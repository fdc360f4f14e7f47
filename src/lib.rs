use vstd::prelude::*;

pub mod error;
pub mod laws;
pub mod reserved;
pub mod rules;

pub use crate::error::{Error, ErrorKind};
pub use crate::rules::{is_valid_name, name_verdict, validate, validation};

verus! {

/// The outcome of validating a name.
pub type Result<T> = core::result::Result<T, Error>;

/// A package name that has passed every rule. It borrows the text it was made from
/// and holds nothing else.
#[derive(Debug, Clone, Copy, PartialEq, Eq, Hash)]
pub struct ValidName<'s>(&'s str);

impl<'s> View for ValidName<'s> {
    type V = Seq<char>;

    closed spec fn view(&self) -> Seq<char> {
        self.0@
    }
}

impl<'s> ValidName<'s> {
    #[verifier::type_invariant]
    spec fn inv(self) -> bool {
        is_valid_name(self.0@)
    }

    /// Validates `name`; on success the result views exactly the text of `name`.
    pub fn parse(name: &'s str) -> (r: Result<Self>)
        ensures
            match name_verdict(name@) {
                None => r is Ok && r->Ok_0@ == name@,
                Some(kind) => r == Err::<Self, Error>(Error { kind }),
            },
    {
        match validate(name) {
            Ok(s) => Ok(ValidName(s)),
            Err(e) => Err(e),
        }
    }

    /// The whole name, as the text it was made from; it is always a valid name.
    pub fn as_str(&self) -> (r: &str)
        ensures
            r@ == self@,
            is_valid_name(r@),
    {
        proof {
            use_type_invariant(self);
        }
        self.0
    }

    /// The name as an owned string, character for character.
    pub fn to_string(&self) -> (r: String)
        ensures
            r@ == self@,
    {
        self.0.to_owned()
    }
}

impl<'s> AsRef<str> for ValidName<'s> {
    fn as_ref(&self) -> (r: &str)
        ensures
            r@ == self@,
    {
        self.0
    }
}

impl<'s> core::ops::Deref for ValidName<'s> {
    type Target = str;

    fn deref(&self) -> (r: &str)
        ensures
            r@ == self@,
    {
        self.0
    }
}

impl<'s> TryFrom<&'s str> for ValidName<'s> {
    type Error = Error;

    fn try_from(value: &'s str) -> (r: Result<Self>) {
        match validate(value) {
            Ok(s) => Ok(ValidName(s)),
            Err(e) => Err(e),
        }
    }
}

impl<'s> vstd::std_specs::convert::TryFromSpecImpl<&'s str> for ValidName<'s> {
    open spec fn obeys_try_from_spec() -> bool {
        true
    }

    closed spec fn try_from_spec(value: &'s str) -> Result<Self> {
        match validation(value) {
            Ok(s) => Ok(ValidName(s)),
            Err(e) => Err(e),
        }
    }
}

} // verus!
