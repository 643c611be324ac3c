use vstd::prelude::*;
use crate::header::{BlobHeader, BlobHeaderView};
use crate::verification::{BlobVerificationProof, BlobVerificationProofView};

verus! {

pub struct BlobInfoView {
    pub blob_header: BlobHeaderView,
    pub blob_verification_proof: BlobVerificationProofView,
}

/// What the network returns for a confirmed blob: its header and its verification proof.
#[derive(Debug, PartialEq, Eq, Hash)]
pub struct BlobInfo {
    blob_header: BlobHeader,
    blob_verification_proof: BlobVerificationProof,
}

impl View for BlobInfo {
    type V = BlobInfoView;

    closed spec fn view(&self) -> BlobInfoView {
        BlobInfoView {
            blob_header: self.blob_header@,
            blob_verification_proof: self.blob_verification_proof@,
        }
    }
}

impl Clone for BlobInfo {
    fn clone(&self) -> (r: Self)
        ensures
            r@ == self@,
    {
        BlobInfo {
            blob_header: self.blob_header.clone(),
            blob_verification_proof: self.blob_verification_proof.clone(),
        }
    }
}

impl BlobInfo {
    pub fn new(blob_header: BlobHeader, blob_verification_proof: BlobVerificationProof) -> (r: Self)
        ensures
            r@ == (BlobInfoView {
                blob_header: blob_header@,
                blob_verification_proof: blob_verification_proof@,
            }),
    {
        BlobInfo { blob_header, blob_verification_proof }
    }

    pub fn blob_header(&self) -> (r: &BlobHeader)
        ensures
            r@ == self@.blob_header,
    {
        &self.blob_header
    }

    pub fn blob_verification_proof(&self) -> (r: &BlobVerificationProof)
        ensures
            r@ == self@.blob_verification_proof,
    {
        &self.blob_verification_proof
    }
}

} // verus!
