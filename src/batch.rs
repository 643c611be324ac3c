use vstd::prelude::*;
use crate::error::ValidationError;
use crate::quorum::{BlobQuorumNumbers, BlobQuorumSignedPercentages};
use crate::wire::base64_decoded;

verus! {

/// Each quorum of a batch has exactly one signed percentage: both sets decode, to the same
/// number of entries.
pub open spec fn quorums_consistent(numbers: Seq<char>, percentages: Seq<char>) -> bool {
    match (base64_decoded(numbers), base64_decoded(percentages)) {
        (Some(n), Some(p)) => n.len() == p.len(),
        _ => false,
    }
}

/// The error that a quorum check reports for sets that are not consistent.
pub open spec fn quorum_error(numbers: Seq<char>, percentages: Seq<char>) -> ValidationError {
    if base64_decoded(numbers) is Some && base64_decoded(percentages) is Some {
        ValidationError::QuorumCardinalityMismatch
    } else {
        ValidationError::QuorumSetUndecodable
    }
}

pub struct BatchHeaderView {
    pub batch_root: Seq<char>,
    pub quorum_numbers: Seq<char>,
    pub quorum_signed_percentages: Seq<char>,
    pub reference_block_number: nat,
}

/// Header of a batch of blobs, as signed by the quorums.
#[derive(Debug, PartialEq, Eq, Hash)]
pub struct BatchHeader {
    batch_root: BlobBatchRoot,
    quorum_numbers: BlobQuorumNumbers,
    quorum_signed_percentages: BlobQuorumSignedPercentages,
    reference_block_number: u128,
}

impl View for BatchHeader {
    type V = BatchHeaderView;

    closed spec fn view(&self) -> BatchHeaderView {
        BatchHeaderView {
            batch_root: self.batch_root@,
            quorum_numbers: self.quorum_numbers@,
            quorum_signed_percentages: self.quorum_signed_percentages@,
            reference_block_number: self.reference_block_number as nat,
        }
    }
}

/// Checks that two quorum sets decode to the same number of entries.
fn check_quorums(
    numbers: &BlobQuorumNumbers,
    percentages: &BlobQuorumSignedPercentages,
) -> (r: Result<(), ValidationError>)
    ensures
        r is Ok <==> quorums_consistent(numbers@, percentages@),
        r matches Err(e) ==> e == quorum_error(numbers@, percentages@),
{
    match (numbers.quorums(), percentages.percentages()) {
        (Some(n), Some(p)) => {
            if n.len() == p.len() {
                Ok(())
            } else {
                Err(ValidationError::QuorumCardinalityMismatch)
            }
        },
        _ => Err(ValidationError::QuorumSetUndecodable),
    }
}

impl Clone for BatchHeader {
    fn clone(&self) -> (r: Self)
        ensures
            r@ == self@,
    {
        proof {
            use_type_invariant(self);
        }
        BatchHeader {
            batch_root: self.batch_root.clone(),
            quorum_numbers: self.quorum_numbers.clone(),
            quorum_signed_percentages: self.quorum_signed_percentages.clone(),
            reference_block_number: self.reference_block_number,
        }
    }
}

impl BatchHeader {
    /// Each quorum of the batch has exactly one signed percentage.
    #[verifier::type_invariant]
    spec fn quorums_match(self) -> bool {
        quorums_consistent(self.quorum_numbers@, self.quorum_signed_percentages@)
    }

    /// Builds a header; refuses quorum sets that are not consistent.
    pub fn new(
        batch_root: BlobBatchRoot,
        quorum_numbers: BlobQuorumNumbers,
        quorum_signed_percentages: BlobQuorumSignedPercentages,
        reference_block_number: u128,
    ) -> (r: Result<Self, ValidationError>)
        ensures
            r is Ok <==> quorums_consistent(quorum_numbers@, quorum_signed_percentages@),
            r matches Ok(h) ==> h@ == (BatchHeaderView {
                batch_root: batch_root@,
                quorum_numbers: quorum_numbers@,
                quorum_signed_percentages: quorum_signed_percentages@,
                reference_block_number: reference_block_number as nat,
            }),
            r matches Err(e) ==> e == quorum_error(quorum_numbers@, quorum_signed_percentages@),
    {
        match check_quorums(&quorum_numbers, &quorum_signed_percentages) {
            Ok(()) => Ok(
                BatchHeader {
                    batch_root,
                    quorum_numbers,
                    quorum_signed_percentages,
                    reference_block_number,
                },
            ),
            Err(e) => Err(e),
        }
    }

    /// How many quorums signed the batch: both quorum sets hold that many entries.
    pub fn quorum_count(&self) -> (r: usize)
        ensures
            base64_decoded(self@.quorum_numbers) matches Some(n) && n.len() == r,
            base64_decoded(self@.quorum_signed_percentages) matches Some(p) && p.len() == r,
    {
        proof {
            use_type_invariant(self);
        }
        match self.quorum_numbers.quorums() {
            Some(n) => n.len(),
            None => 0,
        }
    }

    pub fn batch_root(&self) -> (r: &BlobBatchRoot)
        ensures
            r@ == self@.batch_root,
    {
        &self.batch_root
    }

    pub fn quorum_numbers(&self) -> (r: &BlobQuorumNumbers)
        ensures
            r@ == self@.quorum_numbers,
    {
        &self.quorum_numbers
    }

    pub fn quorum_signed_percentages(&self) -> (r: &BlobQuorumSignedPercentages)
        ensures
            r@ == self@.quorum_signed_percentages,
    {
        &self.quorum_signed_percentages
    }

    pub fn reference_block_number(&self) -> (r: u128)
        ensures
            r as nat == self@.reference_block_number,
    {
        self.reference_block_number
    }
}

/// Hash of a batch header: with a blob index, the coordinate that retrieves a blob.
#[derive(Debug, PartialEq, Eq, Hash, Default)]
pub struct BatchHeaderHash(String);

impl View for BatchHeaderHash {
    type V = Seq<char>;

    closed spec fn view(&self) -> Seq<char> {
        self.0@
    }
}

impl BatchHeaderHash {
    pub fn new(value: String) -> (r: Self)
        ensures
            r@ == value@,
    {
        BatchHeaderHash(value)
    }

    /// The canonical text of the value.
    pub fn to_string(&self) -> (r: String)
        ensures
            r@ == self@,
    {
        self.0.clone()
    }
}

impl Clone for BatchHeaderHash {
    fn clone(&self) -> (r: Self)
        ensures
            r == *self,
    {
        BatchHeaderHash(self.0.clone())
    }
}

/// Merkle root of the blobs of a batch, as opaque encoded text.
#[derive(Debug, PartialEq, Eq, Hash, Default)]
pub struct BlobBatchRoot(String);

impl View for BlobBatchRoot {
    type V = Seq<char>;

    closed spec fn view(&self) -> Seq<char> {
        self.0@
    }
}

impl BlobBatchRoot {
    pub fn new(value: String) -> (r: Self)
        ensures
            r@ == value@,
    {
        BlobBatchRoot(value)
    }

    /// The canonical text of the value.
    pub fn to_string(&self) -> (r: String)
        ensures
            r@ == self@,
    {
        self.0.clone()
    }
}

impl Clone for BlobBatchRoot {
    fn clone(&self) -> (r: Self)
        ensures
            r == *self,
    {
        BlobBatchRoot(self.0.clone())
    }
}
} // verus!
