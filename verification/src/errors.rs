use vstd::prelude::*;

verus! {

/// The ways a broker operation can fail.
#[derive(Clone, Copy, Debug, PartialEq, Eq, Structural)]
pub enum BrokerError {
    /// The identifier has no current registration.
    NotFound,
    /// The broker's serializing worker has stopped and can serve no further
    /// requests; the condition is terminal for that broker instance.
    ConnectionBroken,
}

/// Outcome of a broker call: on success, the endpoint the operation displaced,
/// removed or found (`None` when a registration displaced nothing).
pub type CallResult<T> = Result<Option<T>, BrokerError>;

/// Conversion rule from transport failure: a caller that exchanges requests
/// with the broker's worker hands in the reply it received, or `None` when
/// the request could not be delivered or no reply ever arrived. A missing
/// reply means the worker has stopped, which is reported as
/// `ConnectionBroken`; a reply that did arrive is handed through unchanged.
pub fn transport_outcome<T>(reply: Option<CallResult<T>>) -> (r: CallResult<T>)
    ensures
        reply matches Some(outcome) ==> r == outcome,
        reply is None ==> r == Err::<Option<T>, BrokerError>(BrokerError::ConnectionBroken),
{
    match reply {
        Some(outcome) => outcome,
        None => Err(BrokerError::ConnectionBroken),
    }
}

} // verus!
