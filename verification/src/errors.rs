use vstd::prelude::*;

verus! {

/// Why one embedding request failed. The distinction decides what the request
/// handler does with the resource slot: a construction failure leaves the slot
/// absent so the next request retries, an inference failure leaves a ready
/// model untouched, and an access failure means the exclusive-access primitive
/// itself is unusable and only a process restart helps.
#[derive(Debug, PartialEq, Eq)]
pub enum EmbedError {
    /// The exclusive-access primitive guarding the slot could not be acquired.
    AccessFailure(String),
    /// The initializer could not produce a ready model; the slot stays absent.
    ConstructionFailure(String),
    /// The ready model rejected or could not process the given input.
    InferenceFailure(String),
}

impl EmbedError {
    /// The human-readable detail carried by the failure.
    pub open spec fn message_of(self) -> Seq<char> {
        match self {
            EmbedError::AccessFailure(s) => s@,
            EmbedError::ConstructionFailure(s) => s@,
            EmbedError::InferenceFailure(s) => s@,
        }
    }

    /// Whether a later request may succeed after this failure without a
    /// process restart: construction and inference failures are per-request,
    /// an access failure is fatal for the whole process.
    pub open spec fn spec_recoverable(self) -> bool {
        !(self is AccessFailure)
    }

    /// The error message string handed to the host at the public boundary;
    /// every failure kind is flattened to this one string.
    pub fn message(self) -> (m: String)
        ensures
            m@ == self.message_of(),
    {
        match self {
            EmbedError::AccessFailure(s) => s,
            EmbedError::ConstructionFailure(s) => s,
            EmbedError::InferenceFailure(s) => s,
        }
    }

    /// Whether a later request may succeed after this failure.
    pub fn is_recoverable(&self) -> (b: bool)
        ensures
            b == self.spec_recoverable(),
    {
        match self {
            EmbedError::AccessFailure(_) => false,
            EmbedError::ConstructionFailure(_) => true,
            EmbedError::InferenceFailure(_) => true,
        }
    }
}

} // verus!
