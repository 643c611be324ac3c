use eigenda_client::batch::{BatchHeader, BatchHeaderHash, BlobBatchRoot};
use eigenda_client::error::ValidationError;
use eigenda_client::fee::BlobFee;
use eigenda_client::header::BlobHeader;
use eigenda_client::commitment::BlobCommitment;
use eigenda_client::meta::BatchMetadata;
use eigenda_client::quorum::{BlobQuorumNumbers, BlobQuorumParams, BlobQuorumSignedPercentages};
use eigenda_client::record::BlobSignatoryRecordHash;

fn header(numbers: &str, percentages: &str) -> Result<BatchHeader, ValidationError> {
    BatchHeader::new(
        BlobBatchRoot::new("cm9vdA==".to_string()),
        BlobQuorumNumbers::new(numbers.to_string()),
        BlobQuorumSignedPercentages::new(percentages.to_string()),
        10,
    )
}

#[test]
fn quorum_sets_of_different_sizes_are_refused() {
    assert_eq!(header("AAE=", "ZA==").err(), Some(ValidationError::QuorumCardinalityMismatch));
}

#[test]
fn quorum_sets_that_are_not_base64_are_refused() {
    assert_eq!(header("not base64!", "ZA==").err(), Some(ValidationError::QuorumSetUndecodable));
}

#[test]
fn consistent_quorum_sets_are_counted() {
    let h = header("AAEC", "ZFpQ").unwrap();
    assert_eq!(h.quorum_count(), 3);
    assert_eq!(h.quorum_numbers().quorums(), Some(vec![0, 1, 2]));
    assert_eq!(h.quorum_signed_percentages().percentages(), Some(vec![100, 90, 80]));
    assert_eq!(header("", "").unwrap().quorum_count(), 0);
}

#[test]
fn thresholds_must_be_ordered() {
    assert_eq!(
        BlobQuorumParams::new(60, 40, 1, "1".to_string()).err(),
        Some(ValidationError::ThresholdOrder)
    );
    assert_eq!(
        BlobQuorumParams::new(50, 50, 1, "1".to_string()).err(),
        Some(ValidationError::ThresholdOrder)
    );
    assert_eq!(
        BlobQuorumParams::new(50, 101, 1, "1".to_string()).err(),
        Some(ValidationError::ThresholdOrder)
    );
    assert!(BlobQuorumParams::new(0, 100, 1, "1".to_string()).is_ok());
}

#[test]
fn header_needs_quorum_params() {
    let commitment = BlobCommitment::new("eA==".to_string(), "eQ==".to_string());
    assert_eq!(BlobHeader::new(commitment, 3, vec![]).err(), Some(ValidationError::NoQuorumParams));
}

#[test]
fn confirmation_not_before_reference() {
    let meta = BatchMetadata::new(
        header("AA==", "ZA==").unwrap(),
        BlobSignatoryRecordHash::new("c2ln".to_string()),
        BlobFee::new("AA==".to_string()),
        9,
        BatchHeaderHash::new("aGFzaA==".to_string()),
    );
    assert_eq!(meta.err(), Some(ValidationError::ConfirmationBeforeReference));
    let same_block = BatchMetadata::new(
        header("AA==", "ZA==").unwrap(),
        BlobSignatoryRecordHash::new("c2ln".to_string()),
        BlobFee::new("AA==".to_string()),
        10,
        BatchHeaderHash::new("aGFzaA==".to_string()),
    );
    assert_eq!(same_block.unwrap().confirmation_block_number(), 10);
}
