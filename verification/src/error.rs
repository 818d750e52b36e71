//! What can go wrong while dialogue state is stored, read or removed.

use vstd::prelude::*;

verus! {

/// `serde_json::Error`, the error with which the JSON codec refuses a value
/// it cannot encode or a text it cannot decode. Nothing is claimed of what it
/// holds: it is only carried to the caller.
#[verifier::external_type_specification]
#[verifier::external_body]
pub struct ExSerdeJsonError(serde_json::Error);

/// `redis::RedisError`, the error with which a command to the store fails.
/// Nothing is claimed of what it holds: it is only carried to the caller.
#[verifier::external_type_specification]
#[verifier::external_body]
pub struct ExRedisError(redis::RedisError);

/// An error of the dialogue storage.
#[derive(Debug)]
pub enum RedisStorageError {
    /// The dialogue could not be encoded, or the stored text could not be
    /// decoded into the type asked for.
    SerdeError(serde_json::Error),
    /// The command sent to the store failed.
    RedisError(redis::RedisError),
    /// There was no dialogue to remove.
    DialogueNotFound,
}

} // verus!
