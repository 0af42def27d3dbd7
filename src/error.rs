use vstd::prelude::*;

verus! {

#[verifier::external_type_specification]
#[verifier::external_body]
pub struct ExRedisError(redis::RedisError);

/// Errors of this library.
#[derive(Debug)]
pub enum Error {
    /// The server could not be reached, or it refused a command.
    Redis(redis::RedisError),
    /// A member of the series is not an entry that this library wrote.
    Decode,
}

} // verus!
