use vstd::prelude::*;

verus! {

/// A failure of the storage engine: the connection could not be had, or the
/// engine rejected a statement. The message is for the service's log and is
/// never shown to a client.
pub struct PersonError {
    pub message: String,
}

impl PersonError {
    pub fn new(message: &str) -> (r: PersonError)
        ensures
            r.message@ == message@,
    {
        PersonError { message: message.to_owned() }
    }
}

/// A failure of the gateway to reach the person service or to read a valid
/// answer from it.
pub struct UpstreamError {
    pub message: String,
}

impl UpstreamError {
    pub fn new(message: &str) -> (r: UpstreamError)
        ensures
            r.message@ == message@,
    {
        UpstreamError { message: message.to_owned() }
    }
}

} // verus!
