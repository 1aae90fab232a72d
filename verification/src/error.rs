use vstd::prelude::*;

verus! {

/// Opaque internal-failure category: boundary failures (token minting,
/// serialization) are wrapped here and never become part of a deterministic
/// transaction outcome.
#[derive(Debug, Clone, PartialEq, Eq)]
pub enum Error {
    ArbitraryFailure(String),
}

impl Error {
    /// The text carried by the failure.
    pub open spec fn text(&self) -> Seq<char> {
        match self {
            Error::ArbitraryFailure(s) => s@,
        }
    }

    /// Returns the carried text as an owned string.
    pub fn message(&self) -> (r: String)
        ensures
            r@ == self.text(),
    {
        match self {
            Error::ArbitraryFailure(s) => s.clone(),
        }
    }
}

} // verus!
