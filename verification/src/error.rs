use vstd::prelude::*;

verus! {

/// The error taxonomy of the library.
///
/// `Surreal` carries a store-communication failure surfaced verbatim as text;
/// `FancySurreal` carries every failure raised by this library itself
/// (missing table scope, missing identity, authorization denial,
/// empty mutation result, not-found).
#[derive(Debug, Clone, PartialEq, Eq)]
pub enum Error {
    Surreal(String),
    FancySurreal(String),
}

/// Whether `e` is the library-level error carrying exactly `msg`.
pub open spec fn is_library_error(e: Error, msg: Seq<char>) -> bool {
    e matches Error::FancySurreal(m) && m@ == msg
}

impl Error {
    /// Builds a library-level error from a message.
    pub fn new(msg: &str) -> (r: Self)
        ensures
            r matches Error::FancySurreal(m) && m@ == msg@,
    {
        Self::FancySurreal(msg.to_owned())
    }
}

} // verus!
