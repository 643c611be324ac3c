use vstd::prelude::*;
use crate::batch::{BatchHeader, BatchHeaderHash, BatchHeaderView};
use crate::error::ValidationError;
use crate::fee::BlobFee;
use crate::record::BlobSignatoryRecordHash;

verus! {

pub struct BatchMetadataView {
    pub batch_header: BatchHeaderView,
    pub signatory_record_hash: Seq<char>,
    pub fee: Seq<char>,
    pub confirmation_block_number: nat,
    pub batch_header_hash: Seq<char>,
}

/// What the network recorded when it confirmed a batch.
#[derive(Debug, PartialEq, Eq, Hash)]
pub struct BatchMetadata {
    batch_header: BatchHeader,
    signatory_record_hash: BlobSignatoryRecordHash,
    fee: BlobFee,
    confirmation_block_number: u128,
    batch_header_hash: BatchHeaderHash,
}

impl View for BatchMetadata {
    type V = BatchMetadataView;

    closed spec fn view(&self) -> BatchMetadataView {
        BatchMetadataView {
            batch_header: self.batch_header@,
            signatory_record_hash: self.signatory_record_hash@,
            fee: self.fee@,
            confirmation_block_number: self.confirmation_block_number as nat,
            batch_header_hash: self.batch_header_hash@,
        }
    }
}

impl Clone for BatchMetadata {
    fn clone(&self) -> (r: Self)
        ensures
            r@ == self@,
    {
        proof {
            use_type_invariant(self);
        }
        BatchMetadata {
            batch_header: self.batch_header.clone(),
            signatory_record_hash: self.signatory_record_hash.clone(),
            fee: self.fee.clone(),
            confirmation_block_number: self.confirmation_block_number,
            batch_header_hash: self.batch_header_hash.clone(),
        }
    }
}

impl BatchMetadata {
    /// A batch is confirmed no earlier than its reference block.
    #[verifier::type_invariant]
    spec fn confirmed_after_reference(self) -> bool {
        self.confirmation_block_number >= self.batch_header@.reference_block_number
    }

    /// Builds the metadata; refuses a confirmation block before the header's reference block.
    pub fn new(
        batch_header: BatchHeader,
        signatory_record_hash: BlobSignatoryRecordHash,
        fee: BlobFee,
        confirmation_block_number: u128,
        batch_header_hash: BatchHeaderHash,
    ) -> (r: Result<Self, ValidationError>)
        ensures
            r is Ok <==> confirmation_block_number >= batch_header@.reference_block_number,
            r matches Ok(m) ==> m@ == (BatchMetadataView {
                batch_header: batch_header@,
                signatory_record_hash: signatory_record_hash@,
                fee: fee@,
                confirmation_block_number: confirmation_block_number as nat,
                batch_header_hash: batch_header_hash@,
            }),
            r matches Err(e) ==> e == ValidationError::ConfirmationBeforeReference,
    {
        if confirmation_block_number >= batch_header.reference_block_number() {
            Ok(
                BatchMetadata {
                    batch_header,
                    signatory_record_hash,
                    fee,
                    confirmation_block_number,
                    batch_header_hash,
                },
            )
        } else {
            Err(ValidationError::ConfirmationBeforeReference)
        }
    }

    pub fn batch_header(&self) -> (r: &BatchHeader)
        ensures
            r@ == self@.batch_header,
    {
        &self.batch_header
    }

    pub fn signatory_record_hash(&self) -> (r: &BlobSignatoryRecordHash)
        ensures
            r@ == self@.signatory_record_hash,
    {
        &self.signatory_record_hash
    }

    pub fn fee(&self) -> (r: &BlobFee)
        ensures
            r@ == self@.fee,
    {
        &self.fee
    }

    pub fn confirmation_block_number(&self) -> (r: u128)
        ensures
            r as nat == self@.confirmation_block_number,
            r >= self@.batch_header.reference_block_number,
    {
        proof {
            use_type_invariant(self);
        }
        self.confirmation_block_number
    }

    pub fn batch_header_hash(&self) -> (r: &BatchHeaderHash)
        ensures
            r@ == self@.batch_header_hash,
    {
        &self.batch_header_hash
    }
}

} // verus!
