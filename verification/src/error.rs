//! The error type of the compiler.
use vstd::prelude::*;

verus! {

/// An error reported by a compiler pass: the program is rejected, or a
/// compiler bug was detected.
#[derive(Debug)]
pub struct Error {
    pub message: String,
}

impl Error {
    pub fn new(message: &str) -> (r: Error)
        ensures
            r.message@ == message@,
    {
        Error { message: message.to_owned() }
    }
}

} // verus!

verus! {

/// `r` is the result that `s` describes: `Ok` with a value whose view is the
/// one in `s`, or `Err` when `s` is `None`.
pub open spec fn result_is<T: View>(r: Result<T, Error>, s: Option<T::V>) -> bool {
    match s {
        Some(v) => r is Ok && r->Ok_0@ == v,
        None => r is Err,
    }
}

} // verus!
