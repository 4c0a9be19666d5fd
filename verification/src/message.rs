//! The message model: an immutable value with a destination identifier, an
//! optional payload tagged with a format, and an optional time-to-live.

use vstd::prelude::*;

verus! {

/// Format tag attached to a payload: how its bytes are to be interpreted.
#[derive(Clone, Copy, PartialEq, Eq, Structural, Debug)]
pub enum PayloadFormat {
    Unspecified,
    Text,
    Raw,
}

/// Why a message could not be built.
#[derive(Clone, Copy, PartialEq, Eq, Structural, Debug)]
pub enum BuildError {
    EmptyDestination,
}

/// An immutable message: destination identifier, optional time-to-live in
/// milliseconds, and an optional payload with its format tag. Built fresh
/// per send and never mutated after construction.
#[derive(Debug)]
pub struct Message {
    pub destination: String,
    pub ttl_ms: Option<u32>,
    pub payload: Option<Vec<u8>>,
    pub format: PayloadFormat,
}

/// Builds a publish message carrying the given payload. Fails exactly when
/// the destination identifier is empty; every other input yields a message
/// holding precisely the given fields.
pub fn build_publish_message(
    destination: String,
    ttl_ms: u32,
    payload: Vec<u8>,
    format: PayloadFormat,
) -> (r: Result<Message, BuildError>)
    ensures
        r is Ok <==> destination@.len() > 0,
        r is Err ==> r->Err_0 == BuildError::EmptyDestination,
        r is Ok ==> ({
            let m = r->Ok_0;
            &&& m.destination@ == destination@
            &&& m.ttl_ms == Some(ttl_ms)
            &&& m.payload == Some(payload)
            &&& m.format == format
        }),
{
    if destination.as_str().is_empty() {
        Err(BuildError::EmptyDestination)
    } else {
        Ok(Message { destination, ttl_ms: Some(ttl_ms), payload: Some(payload), format })
    }
}

} // verus!
