use vstd::prelude::*;
use crate::batch::{BatchHeader, BatchHeaderHash, BlobBatchRoot};
use crate::commitment::BlobCommitment;
use crate::error::{ClientError, ParsePolicy, ValidationError};
use crate::fee::BlobFee;
use crate::header::BlobHeader;
use crate::info::{BlobInfo, BlobInfoView};
use crate::meta::BatchMetadata;
use crate::quorum::{BlobQuorumIndexes, BlobQuorumNumbers, BlobQuorumParams, BlobQuorumSignedPercentages};
use crate::record::BlobSignatoryRecordHash;
use crate::verification::{BlobInclusionProof, BlobVerificationProof};
use crate::wire::same_text;

verus! {

/// Lifecycle state of a dispersal request.
#[derive(Debug, PartialEq, Eq, Hash)]
pub enum BlobResult {
    Processing,
    Confirmed,
    Failed,
    Other(String),
}

impl Clone for BlobResult {
    fn clone(&self) -> (r: Self)
        ensures
            r == *self,
    {
        match self {
            BlobResult::Processing => BlobResult::Processing,
            BlobResult::Confirmed => BlobResult::Confirmed,
            BlobResult::Failed => BlobResult::Failed,
            BlobResult::Other(s) => BlobResult::Other(s.clone()),
        }
    }
}

/// The state that a wire name stands for: the three known names, anything else kept as is.
pub open spec fn result_of_wire_name(name: Seq<char>, r: BlobResult) -> bool {
    if name == "PROCESSING"@ {
        r == BlobResult::Processing
    } else if name == "CONFIRMED"@ {
        r == BlobResult::Confirmed
    } else if name == "FAILED"@ {
        r == BlobResult::Failed
    } else {
        r matches BlobResult::Other(t) && t@ == name
    }
}

/// The state that stands in for a reply that could not be decoded.
pub open spec fn is_default_result(r: BlobResult) -> bool {
    r matches BlobResult::Other(t) && t@ == "Default"@
}

impl BlobResult {
    /// Reads the `result` / `status` value of a reply.
    pub fn from_wire_name(name: &str) -> (r: Self)
        ensures
            result_of_wire_name(name@, r),
    {
        if same_text(name, "PROCESSING") {
            BlobResult::Processing
        } else if same_text(name, "CONFIRMED") {
            BlobResult::Confirmed
        } else if same_text(name, "FAILED") {
            BlobResult::Failed
        } else {
            BlobResult::Other(name.to_owned())
        }
    }

    /// Every state but `Processing` ends the polling of a request.
    pub open spec fn spec_is_terminal(&self) -> bool {
        !(self is Processing)
    }

    #[verifier::when_used_as_spec(spec_is_terminal)]
    pub fn is_terminal(&self) -> (r: bool)
        ensures
            r == self.spec_is_terminal(),
    {
        !matches!(self, BlobResult::Processing)
    }
}

impl Default for BlobResult {
    fn default() -> (r: Self)
        ensures
            is_default_result(r),
    {
        BlobResult::Other(String::from_str("Default"))
    }
}

pub struct BlobStatusView {
    pub status: BlobResult,
    pub info: Option<BlobInfoView>,
}

/// The state of a dispersal request, with the blob info once it is confirmed.
#[derive(Debug, PartialEq, Eq, Hash)]
pub struct BlobStatus {
    status: BlobResult,
    info: Option<BlobInfo>,
}

impl View for BlobStatus {
    type V = BlobStatusView;

    closed spec fn view(&self) -> BlobStatusView {
        BlobStatusView {
            status: self.status,
            info: match self.info {
                Some(i) => Some(i@),
                None => None,
            },
        }
    }
}

/// A status that stands in for a reply that could not be decoded: still processing, no info.
pub open spec fn is_default_status(s: BlobStatusView) -> bool {
    s.status is Processing && s.info is None
}

/// What a status reply settles to, given what its decoder made of it (`None`: the reply held
/// no JSON document) and the policy for replies that do not decode.
pub open spec fn settles_status(
    decoded: Option<Result<BlobStatus, String>>,
    policy: ParsePolicy,
    r: Result<BlobStatus, ClientError>,
) -> bool {
    match decoded {
        Some(Ok(s)) => r == Ok::<BlobStatus, ClientError>(s),
        Some(Err(message)) => match policy {
            ParsePolicy::UseDefault => r matches Ok(s) && is_default_status(s@),
            ParsePolicy::PropagateError => r == Err::<BlobStatus, ClientError>(
                ClientError::MalformedResponse(message),
            ),
        },
        None => match policy {
            ParsePolicy::UseDefault => r matches Ok(s) && is_default_status(s@),
            ParsePolicy::PropagateError => r matches Err(ClientError::MalformedResponse(m))
                && m@ == "no JSON document in the reply"@,
        },
    }
}

impl BlobStatus {
    /// A confirmed status carries the info of the confirmed blob.
    #[verifier::type_invariant]
    spec fn confirmed_has_info(self) -> bool {
        self.status is Confirmed ==> self.info is Some
    }

    /// Builds a status; refuses `Confirmed` without info.
    pub fn new(status: BlobResult, info: Option<BlobInfo>) -> (r: Result<Self, ValidationError>)
        ensures
            r is Ok <==> !(status is Confirmed && info is None),
            r matches Ok(s) ==> s@.status == status && s@.info == match info {
                Some(i) => Some(i@),
                None => None::<BlobInfoView>,
            },
            r matches Err(e) ==> e == ValidationError::MissingInfo,
    {
        if matches!(status, BlobResult::Confirmed) && info.is_none() {
            Err(ValidationError::MissingInfo)
        } else {
            Ok(BlobStatus { status, info })
        }
    }

    /// Assembles a decoded status reply from its state and its info, when present, as
    /// decoded. A confirmed status needs valid info and fails with its error; in any other
    /// state info that did not validate is dropped, since nothing may read it.
    pub fn from_reply_parts(
        status: BlobResult,
        info: Option<Result<BlobInfo, ValidationError>>,
    ) -> (r: Result<Self, ValidationError>)
        ensures
            status is Confirmed ==> match info {
                Some(Ok(i)) => r matches Ok(s) && s@ == (BlobStatusView { status, info: Some(i@) }),
                Some(Err(e)) => r == Err::<BlobStatus, ValidationError>(e),
                None => r == Err::<BlobStatus, ValidationError>(ValidationError::MissingInfo),
            },
            !(status is Confirmed) ==> (r matches Ok(s) && s@ == (BlobStatusView {
                status,
                info: match info {
                    Some(Ok(i)) => Some(i@),
                    _ => None,
                },
            })),
    {
        match info {
            Some(Ok(i)) => Ok(BlobStatus { status, info: Some(i) }),
            Some(Err(e)) => {
                if matches!(status, BlobResult::Confirmed) {
                    Err(e)
                } else {
                    Ok(BlobStatus { status, info: None })
                }
            },
            None => {
                if matches!(status, BlobResult::Confirmed) {
                    Err(ValidationError::MissingInfo)
                } else {
                    Ok(BlobStatus { status, info: None })
                }
            },
        }
    }

    /// Settles a status reply: a decoded status is kept; a reply that did not decode gives
    /// the default status under `UseDefault`, and a `MalformedResponse` error otherwise.
    pub fn from_decoded(decoded: Option<Result<BlobStatus, String>>, policy: ParsePolicy) -> (r:
        Result<BlobStatus, ClientError>)
        ensures
            settles_status(decoded, policy, r),
    {
        match decoded {
            Some(Ok(s)) => Ok(s),
            Some(Err(message)) => match policy {
                ParsePolicy::UseDefault => Ok(BlobStatus::default()),
                ParsePolicy::PropagateError => Err(ClientError::MalformedResponse(message)),
            },
            None => match policy {
                ParsePolicy::UseDefault => Ok(BlobStatus::default()),
                ParsePolicy::PropagateError => Err(
                    ClientError::MalformedResponse(String::from_str("no JSON document in the reply")),
                ),
            },
        }
    }

    pub fn status(&self) -> (r: &BlobResult)
        ensures
            *r == self@.status,
    {
        &self.status
    }

    /// The blob info; only a confirmed status has it.
    pub fn info(&self) -> (r: Result<&BlobInfo, ClientError>)
        ensures
            r is Ok <==> self@.status is Confirmed,
            r matches Ok(i) ==> self@.info == Some(i@),
            r matches Err(e) ==> e == ClientError::NotConfirmed(self@.status),
    {
        proof {
            use_type_invariant(self);
        }
        match &self.info {
            Some(i) => {
                if matches!(self.status, BlobResult::Confirmed) {
                    return Ok(i);
                }
            },
            None => {},
        }
        Err(ClientError::NotConfirmed(self.status.clone()))
    }

    pub fn blob_header(&self) -> (r: Result<&BlobHeader, ClientError>)
        ensures
            r is Ok <==> self@.status is Confirmed,
            r matches Ok(v) ==> v@ == self@.info->Some_0.blob_header,
            r matches Err(e) ==> e == ClientError::NotConfirmed(self@.status),
    {
        match self.info() {
            Ok(i) => Ok(i.blob_header()),
            Err(e) => Err(e),
        }
    }

    pub fn blob_verification_proof(&self) -> (r: Result<&BlobVerificationProof, ClientError>)
        ensures
            r is Ok <==> self@.status is Confirmed,
            r matches Ok(v) ==> v@ == self@.info->Some_0.blob_verification_proof,
            r matches Err(e) ==> e == ClientError::NotConfirmed(self@.status),
    {
        match self.info() {
            Ok(i) => Ok(i.blob_verification_proof()),
            Err(e) => Err(e),
        }
    }

    pub fn commitment(&self) -> (r: Result<&BlobCommitment, ClientError>)
        ensures
            r is Ok <==> self@.status is Confirmed,
            r matches Ok(v) ==> v@ == self@.info->Some_0.blob_header.commitment,
            r matches Err(e) ==> e == ClientError::NotConfirmed(self@.status),
    {
        match self.info() {
            Ok(i) => Ok(i.blob_header().commitment()),
            Err(e) => Err(e),
        }
    }

    pub fn data_length(&self) -> (r: Result<usize, ClientError>)
        ensures
            r is Ok <==> self@.status is Confirmed,
            r matches Ok(v) ==> v as nat == self@.info->Some_0.blob_header.data_length,
            r matches Err(e) ==> e == ClientError::NotConfirmed(self@.status),
    {
        match self.info() {
            Ok(i) => Ok(i.blob_header().data_length()),
            Err(e) => Err(e),
        }
    }

    pub fn blob_quorum_params(&self) -> (r: Result<&Vec<BlobQuorumParams>, ClientError>)
        ensures
            r is Ok <==> self@.status is Confirmed,
            r matches Ok(v) ==> v@ == self@.info->Some_0.blob_header.blob_quorum_params,
            r matches Ok(v) ==> v@.len() > 0,
            r matches Err(e) ==> e == ClientError::NotConfirmed(self@.status),
    {
        match self.info() {
            Ok(i) => Ok(i.blob_header().blob_quorum_params()),
            Err(e) => Err(e),
        }
    }

    pub fn batch_id(&self) -> (r: Result<u128, ClientError>)
        ensures
            r is Ok <==> self@.status is Confirmed,
            r matches Ok(v) ==> v as nat == self@.info->Some_0.blob_verification_proof.batch_id,
            r matches Err(e) ==> e == ClientError::NotConfirmed(self@.status),
    {
        match self.info() {
            Ok(i) => Ok(i.blob_verification_proof().batch_id()),
            Err(e) => Err(e),
        }
    }

    pub fn blob_index(&self) -> (r: Result<u128, ClientError>)
        ensures
            r is Ok <==> self@.status is Confirmed,
            r matches Ok(v) ==> v as nat == self@.info->Some_0.blob_verification_proof.blob_index,
            r matches Err(e) ==> e == ClientError::NotConfirmed(self@.status),
    {
        match self.info() {
            Ok(i) => Ok(i.blob_verification_proof().blob_index()),
            Err(e) => Err(e),
        }
    }

    pub fn batch_metadata(&self) -> (r: Result<&BatchMetadata, ClientError>)
        ensures
            r is Ok <==> self@.status is Confirmed,
            r matches Ok(v) ==> v@ == self@.info->Some_0.blob_verification_proof.batch_metadata,
            r matches Err(e) ==> e == ClientError::NotConfirmed(self@.status),
    {
        match self.info() {
            Ok(i) => Ok(i.blob_verification_proof().batch_metadata()),
            Err(e) => Err(e),
        }
    }

    pub fn inclusion_proof(&self) -> (r: Result<&BlobInclusionProof, ClientError>)
        ensures
            r is Ok <==> self@.status is Confirmed,
            r matches Ok(v) ==> v@ == self@.info->Some_0.blob_verification_proof.inclusion_proof,
            r matches Err(e) ==> e == ClientError::NotConfirmed(self@.status),
    {
        match self.info() {
            Ok(i) => Ok(i.blob_verification_proof().inclusion_proof()),
            Err(e) => Err(e),
        }
    }

    pub fn quorum_indexes(&self) -> (r: Result<&BlobQuorumIndexes, ClientError>)
        ensures
            r is Ok <==> self@.status is Confirmed,
            r matches Ok(v) ==> v@ == self@.info->Some_0.blob_verification_proof.quorum_indexes,
            r matches Err(e) ==> e == ClientError::NotConfirmed(self@.status),
    {
        match self.info() {
            Ok(i) => Ok(i.blob_verification_proof().quorum_indexes()),
            Err(e) => Err(e),
        }
    }

    pub fn batch_header(&self) -> (r: Result<&BatchHeader, ClientError>)
        ensures
            r is Ok <==> self@.status is Confirmed,
            r matches Ok(v) ==> v@ == self@.info->Some_0.blob_verification_proof.batch_metadata.batch_header,
            r matches Err(e) ==> e == ClientError::NotConfirmed(self@.status),
    {
        match self.info() {
            Ok(i) => Ok(i.blob_verification_proof().batch_metadata().batch_header()),
            Err(e) => Err(e),
        }
    }

    pub fn signatory_record_hash(&self) -> (r: Result<&BlobSignatoryRecordHash, ClientError>)
        ensures
            r is Ok <==> self@.status is Confirmed,
            r matches Ok(v) ==> v@ == self@.info->Some_0.blob_verification_proof.batch_metadata.signatory_record_hash,
            r matches Err(e) ==> e == ClientError::NotConfirmed(self@.status),
    {
        match self.info() {
            Ok(i) => Ok(i.blob_verification_proof().batch_metadata().signatory_record_hash()),
            Err(e) => Err(e),
        }
    }

    pub fn fee(&self) -> (r: Result<&BlobFee, ClientError>)
        ensures
            r is Ok <==> self@.status is Confirmed,
            r matches Ok(v) ==> v@ == self@.info->Some_0.blob_verification_proof.batch_metadata.fee,
            r matches Err(e) ==> e == ClientError::NotConfirmed(self@.status),
    {
        match self.info() {
            Ok(i) => Ok(i.blob_verification_proof().batch_metadata().fee()),
            Err(e) => Err(e),
        }
    }

    pub fn confirmation_block_number(&self) -> (r: Result<u128, ClientError>)
        ensures
            r is Ok <==> self@.status is Confirmed,
            r matches Ok(v) ==> v as nat == self@.info->Some_0.blob_verification_proof.batch_metadata.confirmation_block_number,
            r matches Ok(v) ==> v >= self@.info->Some_0.blob_verification_proof.batch_metadata.batch_header.reference_block_number,
            r matches Err(e) ==> e == ClientError::NotConfirmed(self@.status),
    {
        match self.info() {
            Ok(i) => Ok(i.blob_verification_proof().batch_metadata().confirmation_block_number()),
            Err(e) => Err(e),
        }
    }

    pub fn batch_header_hash(&self) -> (r: Result<&BatchHeaderHash, ClientError>)
        ensures
            r is Ok <==> self@.status is Confirmed,
            r matches Ok(v) ==> v@ == self@.info->Some_0.blob_verification_proof.batch_metadata.batch_header_hash,
            r matches Err(e) ==> e == ClientError::NotConfirmed(self@.status),
    {
        match self.info() {
            Ok(i) => Ok(i.blob_verification_proof().batch_metadata().batch_header_hash()),
            Err(e) => Err(e),
        }
    }

    pub fn batch_root(&self) -> (r: Result<&BlobBatchRoot, ClientError>)
        ensures
            r is Ok <==> self@.status is Confirmed,
            r matches Ok(v) ==> v@ == self@.info->Some_0.blob_verification_proof.batch_metadata.batch_header.batch_root,
            r matches Err(e) ==> e == ClientError::NotConfirmed(self@.status),
    {
        match self.info() {
            Ok(i) => Ok(i.blob_verification_proof().batch_metadata().batch_header().batch_root()),
            Err(e) => Err(e),
        }
    }

    pub fn quorum_numbers(&self) -> (r: Result<&BlobQuorumNumbers, ClientError>)
        ensures
            r is Ok <==> self@.status is Confirmed,
            r matches Ok(v) ==> v@ == self@.info->Some_0.blob_verification_proof.batch_metadata.batch_header.quorum_numbers,
            r matches Err(e) ==> e == ClientError::NotConfirmed(self@.status),
    {
        match self.info() {
            Ok(i) => Ok(i.blob_verification_proof().batch_metadata().batch_header().quorum_numbers()),
            Err(e) => Err(e),
        }
    }

    pub fn quorum_signed_percentages(&self) -> (r: Result<&BlobQuorumSignedPercentages, ClientError>)
        ensures
            r is Ok <==> self@.status is Confirmed,
            r matches Ok(v) ==> v@ == self@.info->Some_0.blob_verification_proof.batch_metadata.batch_header.quorum_signed_percentages,
            r matches Err(e) ==> e == ClientError::NotConfirmed(self@.status),
    {
        match self.info() {
            Ok(i) => Ok(i.blob_verification_proof().batch_metadata().batch_header().quorum_signed_percentages()),
            Err(e) => Err(e),
        }
    }

    pub fn reference_block_number(&self) -> (r: Result<u128, ClientError>)
        ensures
            r is Ok <==> self@.status is Confirmed,
            r matches Ok(v) ==> v as nat == self@.info->Some_0.blob_verification_proof.batch_metadata.batch_header.reference_block_number,
            r matches Err(e) ==> e == ClientError::NotConfirmed(self@.status),
    {
        match self.info() {
            Ok(i) => Ok(i.blob_verification_proof().batch_metadata().batch_header().reference_block_number()),
            Err(e) => Err(e),
        }
    }
}

impl Clone for BlobStatus {
    fn clone(&self) -> (r: Self)
        ensures
            r@ == self@,
    {
        proof {
            use_type_invariant(self);
        }
        let info = match &self.info {
            Some(i) => Some(i.clone()),
            None => None,
        };
        BlobStatus { status: self.status.clone(), info }
    }
}

impl Default for BlobStatus {
    fn default() -> (r: Self)
        ensures
            is_default_status(r@),
    {
        BlobStatus { status: BlobResult::Processing, info: None }
    }
}

/// How the polling of a request is bounded: at most `max_attempts` polls, `interval_secs`
/// apart.
#[derive(Debug, Clone, Copy, PartialEq, Eq, Structural)]
pub struct PollPolicy {
    pub max_attempts: u32,
    pub interval_secs: u64,
}

/// What the caller of a polling loop does next.
#[derive(Debug, Clone, Copy, PartialEq, Eq, Structural)]
pub enum PollAction {
    /// The last state is terminal: polling is over.
    Stop,
    /// Wait this many seconds, then poll again.
    Wait(u64),
    /// The attempts are spent and the request is still processing.
    GiveUp,
}

/// Decides the step after `attempts_made` polls whose last answer was `last`.
pub fn next_poll_action(policy: PollPolicy, attempts_made: u32, last: &BlobResult) -> (r:
    PollAction)
    ensures
        last.spec_is_terminal() ==> r == PollAction::Stop,
        !last.spec_is_terminal() && attempts_made >= policy.max_attempts ==> r
            == PollAction::GiveUp,
        !last.spec_is_terminal() && attempts_made < policy.max_attempts ==> r == PollAction::Wait(
            policy.interval_secs,
        ),
{
    if last.is_terminal() {
        PollAction::Stop
    } else if attempts_made >= policy.max_attempts {
        PollAction::GiveUp
    } else {
        PollAction::Wait(policy.interval_secs)
    }
}

} // verus!
