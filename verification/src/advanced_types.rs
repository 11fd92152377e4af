//! Type aliases and type parameters with and without a known size.

use std::io::Error;
use vstd::prelude::*;

verus! {

#[verifier::external_type_specification]
#[verifier::external_body]
pub struct ExError(Error);

/// What an operation on a sink gives: a value, or the error of the sink.
pub type Result<T> = std::result::Result<T, Error>;

/// A sink for bytes.
pub trait Write {
    fn write(&mut self, buf: &[u8]) -> Result<usize>;

    fn flush(&mut self) -> Result<()>;
}

/// Takes a value of any type whose size is known.
pub fn generic<T>(t: T) {
}

/// Takes a reference to a value of any type, of known size or not.
pub fn generic_unsized<T: ?Sized>(t: &T) {
}

} // verus!
