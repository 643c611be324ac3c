use vstd::prelude::*;
use crate::status::BlobResult;

verus! {

/// Why a record of the verification data model was refused at construction.
#[derive(Debug, Clone, Copy, PartialEq, Eq, Structural)]
pub enum ValidationError {
    /// Adversary threshold not below quorum threshold, or quorum threshold above 100.
    ThresholdOrder,
    /// A blob header without any quorum parameters.
    NoQuorumParams,
    /// A quorum-number or signed-percentage set that is not base64 text.
    QuorumSetUndecodable,
    /// Quorum-number and signed-percentage sets of different sizes.
    QuorumCardinalityMismatch,
    /// A batch confirmed at a block before its reference block.
    ConfirmationBeforeReference,
    /// A confirmed status without the blob info that confirmation carries.
    MissingInfo,
}

/// Errors that the dispersal client hands to its callers.
#[derive(Debug, Clone, PartialEq, Eq)]
pub enum ClientError {
    /// The network call could not be made or reported failure; holds its error text as is.
    Transport(String),
    /// The reply could not be decoded, and the parse policy asked for the error.
    MalformedResponse(String),
    /// A confirmation-only field was asked of a status in this other state.
    NotConfirmed(BlobResult),
    /// A required setting was missing when the client was built; holds the setting's name.
    Configuration(String),
}

/// What to make of a reply that does not decode: the default value, or an error.
#[derive(Debug, Clone, Copy, PartialEq, Eq, Structural)]
pub enum ParsePolicy {
    UseDefault,
    PropagateError,
}

} // verus!
