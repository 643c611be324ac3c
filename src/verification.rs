use vstd::prelude::*;
use crate::meta::{BatchMetadata, BatchMetadataView};
use crate::quorum::BlobQuorumIndexes;

verus! {

pub struct BlobVerificationProofView {
    pub batch_id: nat,
    pub blob_index: nat,
    pub batch_metadata: BatchMetadataView,
    pub inclusion_proof: Seq<char>,
    pub quorum_indexes: Seq<char>,
}

/// What ties a blob to a signed batch: the batch, the blob's place in it and the proofs.
#[derive(Debug, PartialEq, Eq, Hash)]
pub struct BlobVerificationProof {
    batch_id: u128,
    blob_index: u128,
    batch_metadata: BatchMetadata,
    inclusion_proof: BlobInclusionProof,
    quorum_indexes: BlobQuorumIndexes,
}

impl View for BlobVerificationProof {
    type V = BlobVerificationProofView;

    closed spec fn view(&self) -> BlobVerificationProofView {
        BlobVerificationProofView {
            batch_id: self.batch_id as nat,
            blob_index: self.blob_index as nat,
            batch_metadata: self.batch_metadata@,
            inclusion_proof: self.inclusion_proof@,
            quorum_indexes: self.quorum_indexes@,
        }
    }
}

impl Clone for BlobVerificationProof {
    fn clone(&self) -> (r: Self)
        ensures
            r@ == self@,
    {
        BlobVerificationProof {
            batch_id: self.batch_id,
            blob_index: self.blob_index,
            batch_metadata: self.batch_metadata.clone(),
            inclusion_proof: self.inclusion_proof.clone(),
            quorum_indexes: self.quorum_indexes.clone(),
        }
    }
}

impl BlobVerificationProof {
    pub fn new(
        batch_id: u128,
        blob_index: u128,
        batch_metadata: BatchMetadata,
        inclusion_proof: BlobInclusionProof,
        quorum_indexes: BlobQuorumIndexes,
    ) -> (r: Self)
        ensures
            r@ == (BlobVerificationProofView {
                batch_id: batch_id as nat,
                blob_index: blob_index as nat,
                batch_metadata: batch_metadata@,
                inclusion_proof: inclusion_proof@,
                quorum_indexes: quorum_indexes@,
            }),
    {
        BlobVerificationProof { batch_id, blob_index, batch_metadata, inclusion_proof, quorum_indexes }
    }

    pub fn batch_id(&self) -> (r: u128)
        ensures
            r as nat == self@.batch_id,
    {
        self.batch_id
    }

    pub fn blob_index(&self) -> (r: u128)
        ensures
            r as nat == self@.blob_index,
    {
        self.blob_index
    }

    pub fn batch_metadata(&self) -> (r: &BatchMetadata)
        ensures
            r@ == self@.batch_metadata,
    {
        &self.batch_metadata
    }

    pub fn inclusion_proof(&self) -> (r: &BlobInclusionProof)
        ensures
            r@ == self@.inclusion_proof,
    {
        &self.inclusion_proof
    }

    pub fn quorum_indexes(&self) -> (r: &BlobQuorumIndexes)
        ensures
            r@ == self@.quorum_indexes,
    {
        &self.quorum_indexes
    }
}

/// Merkle proof that a blob is included in its batch, as opaque encoded text.
#[derive(Debug, PartialEq, Eq, Hash, Default)]
pub struct BlobInclusionProof(String);

impl View for BlobInclusionProof {
    type V = Seq<char>;

    closed spec fn view(&self) -> Seq<char> {
        self.0@
    }
}

impl BlobInclusionProof {
    pub fn new(value: String) -> (r: Self)
        ensures
            r@ == value@,
    {
        BlobInclusionProof(value)
    }

    /// The canonical text of the value.
    pub fn to_string(&self) -> (r: String)
        ensures
            r@ == self@,
    {
        self.0.clone()
    }
}

impl Clone for BlobInclusionProof {
    fn clone(&self) -> (r: Self)
        ensures
            r == *self,
    {
        BlobInclusionProof(self.0.clone())
    }
}
} // verus!
