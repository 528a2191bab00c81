use vstd::prelude::*;

verus! {

/// The error type of the feeder: every failure is carried as a message.
#[derive(Debug)]
pub enum Error {
    Custom(String),
}

impl Error {
    /// Builds an error that carries `msg`.
    pub fn custom(msg: &str) -> (e: Error)
        ensures
            e is Custom,
            e->Custom_0@ == msg@,
    {
        Error::Custom(msg.to_string())
    }

    /// The message carried by the error.
    pub fn message(&self) -> (m: String)
        ensures
            m@ == self->Custom_0@,
    {
        match self {
            Error::Custom(s) => s.clone(),
        }
    }
}

impl<'a> From<&'a str> for Error {
    fn from(msg: &'a str) -> (e: Error)
        ensures
            e is Custom,
            e->Custom_0@ == msg@,
    {
        Error::custom(msg)
    }
}

// A `String` is not determined by its view, so no exact `from_spec` can be
// given; `Error::custom` states what a conversion builds.
impl<'a> vstd::std_specs::convert::FromSpecImpl<&'a str> for Error {
    open spec fn obeys_from_spec() -> bool {
        false
    }

    open spec fn from_spec(msg: &'a str) -> Error {
        arbitrary()
    }
}

} // verus!
