use vstd::prelude::*;
use crate::commitment::{BlobCommitment, BlobCommitmentView};
use crate::error::ValidationError;
use crate::quorum::BlobQuorumParams;

verus! {

pub struct BlobHeaderView {
    pub commitment: BlobCommitmentView,
    pub data_length: nat,
    pub blob_quorum_params: Seq<BlobQuorumParams>,
}

/// Header of a dispersed blob: its commitment, its length and the parameters of each quorum.
#[derive(Debug, PartialEq, Eq, Hash)]
pub struct BlobHeader {
    commitment: BlobCommitment,
    data_length: usize,
    blob_quorum_params: Vec<BlobQuorumParams>,
}

impl View for BlobHeader {
    type V = BlobHeaderView;

    closed spec fn view(&self) -> BlobHeaderView {
        BlobHeaderView {
            commitment: self.commitment@,
            data_length: self.data_length as nat,
            blob_quorum_params: self.blob_quorum_params@,
        }
    }
}

impl Clone for BlobHeader {
    fn clone(&self) -> (r: Self)
        ensures
            r@ == self@,
    {
        proof {
            use_type_invariant(self);
        }
        let mut params: Vec<BlobQuorumParams> = Vec::new();
        let mut i: usize = 0;
        while i < self.blob_quorum_params.len()
            invariant
                i <= self.blob_quorum_params@.len(),
                params@ == self.blob_quorum_params@.subrange(0, i as int),
            decreases self.blob_quorum_params@.len() - i,
        {
            params.push(self.blob_quorum_params[i].clone());
            assert(params@ =~= self.blob_quorum_params@.subrange(0, i + 1));
            i = i + 1;
        }
        assert(params@ =~= self.blob_quorum_params@);
        BlobHeader {
            commitment: self.commitment.clone(),
            data_length: self.data_length,
            blob_quorum_params: params,
        }
    }
}

impl BlobHeader {
    /// A header lists the parameters of at least one quorum.
    #[verifier::type_invariant]
    spec fn has_quorums(self) -> bool {
        self.blob_quorum_params@.len() > 0
    }

    /// Builds a header; refuses an empty list of quorum parameters.
    pub fn new(
        commitment: BlobCommitment,
        data_length: usize,
        blob_quorum_params: Vec<BlobQuorumParams>,
    ) -> (r: Result<Self, ValidationError>)
        ensures
            r is Ok <==> blob_quorum_params@.len() > 0,
            r matches Ok(h) ==> h@ == (BlobHeaderView {
                commitment: commitment@,
                data_length: data_length as nat,
                blob_quorum_params: blob_quorum_params@,
            }),
            r matches Err(e) ==> e == ValidationError::NoQuorumParams,
    {
        if blob_quorum_params.len() > 0 {
            Ok(BlobHeader { commitment, data_length, blob_quorum_params })
        } else {
            Err(ValidationError::NoQuorumParams)
        }
    }

    pub fn commitment(&self) -> (r: &BlobCommitment)
        ensures
            r@ == self@.commitment,
    {
        &self.commitment
    }

    pub fn data_length(&self) -> (r: usize)
        ensures
            r as nat == self@.data_length,
    {
        self.data_length
    }

    pub fn blob_quorum_params(&self) -> (r: &Vec<BlobQuorumParams>)
        ensures
            r@ == self@.blob_quorum_params,
            r@.len() > 0,
    {
        proof {
            use_type_invariant(self);
        }
        &self.blob_quorum_params
    }
}

} // verus!
