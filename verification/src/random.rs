//! Random bytes from the operating system.

use vstd::prelude::*;

verus! {

/// The error of `getrandom`, of which nothing is seen here.
#[verifier::external_type_specification]
#[verifier::external_body]
pub struct ExRandomError(getrandom::Error);

/// The system's random number source has failed.
#[derive(Clone, Copy, Debug, PartialEq, Eq, Structural)]
pub struct RandomSourceError;

/// Calls `getrandom::fill`, which overwrites `dest` with random bytes or
/// reports a failure of the source. Either way `dest` keeps its length;
/// nothing is known of the bytes. For an empty `dest` it succeeds at once,
/// without asking the source.
#[verifier::external_body]
fn fill(dest: &mut Vec<u8>) -> (filled: Result<(), getrandom::Error>)
    ensures
        final(dest)@.len() == old(dest)@.len(),
        old(dest)@.len() == 0 ==> filled is Ok,
{
    getrandom::fill(dest.as_mut_slice())
}

/// `len` random bytes, or the failure of the random source. No bytes at all
/// are had without the source, which then cannot fail.
pub fn random_bytes(len: usize) -> (bytes: Result<Vec<u8>, RandomSourceError>)
    ensures
        bytes matches Ok(b) ==> b@.len() == len,
        len == 0 ==> bytes is Ok,
{
    let mut dest: Vec<u8> = Vec::new();
    dest.resize(len, 0u8);
    match fill(&mut dest) {
        Ok(()) => Ok(dest),
        Err(_) => Err(RandomSourceError),
    }
}

} // verus!
