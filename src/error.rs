//! The error kinds of the engine.
use vstd::prelude::*;

verus! {

/// The error type for feta: three kinds, each carrying a message.
#[derive(Clone, Debug, PartialEq)]
pub enum FetaError {
    /// A feature definition is malformed or inconsistent; found when it is built.
    Configuration(String),
    /// The caller's request cannot be served, such as a feature name that is not registered.
    Request(String),
    /// An audience expression failed to compile or to evaluate.
    Targeting(String),
}

impl FetaError {
    /// The message of the error, prefixed by its kind.
    pub open spec fn text(self) -> Seq<char> {
        match self {
            FetaError::Configuration(m) => "Configuration error: "@ + m@,
            FetaError::Request(m) => "Request error: "@ + m@,
            FetaError::Targeting(m) => "Targeting error: "@ + m@,
        }
    }

    /// Returns the message of the error, prefixed by its kind, such as
    /// `Request error: invalid feature: f1`.
    pub fn to_string(&self) -> (r: String)
        ensures
            r@ == self.text(),
    {
        match self {
            FetaError::Configuration(m) => "Configuration error: ".to_owned().concat(m.as_str()),
            FetaError::Request(m) => "Request error: ".to_owned().concat(m.as_str()),
            FetaError::Targeting(m) => "Targeting error: ".to_owned().concat(m.as_str()),
        }
    }
}

} // verus!
