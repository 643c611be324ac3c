use eigenda_client::batch::{BatchHeader, BatchHeaderHash, BlobBatchRoot};
use eigenda_client::commitment::BlobCommitment;
use eigenda_client::error::{ClientError, ParsePolicy, ValidationError};
use eigenda_client::fee::BlobFee;
use eigenda_client::header::BlobHeader;
use eigenda_client::info::BlobInfo;
use eigenda_client::meta::BatchMetadata;
use eigenda_client::quorum::{
    BlobQuorumIndexes, BlobQuorumNumbers, BlobQuorumParams, BlobQuorumSignedPercentages,
};
use eigenda_client::record::BlobSignatoryRecordHash;
use eigenda_client::response::BlobResponse;
use eigenda_client::status::{next_poll_action, BlobResult, BlobStatus, PollAction, PollPolicy};
use eigenda_client::verification::{BlobInclusionProof, BlobVerificationProof};

fn batch_header() -> BatchHeader {
    BatchHeader::new(
        BlobBatchRoot::new("cm9vdA==".to_string()),
        BlobQuorumNumbers::new("AAE=".to_string()),
        BlobQuorumSignedPercentages::new("ZFo=".to_string()),
        100,
    )
    .unwrap()
}

fn info() -> BlobInfo {
    let params = BlobQuorumParams::new(33, 55, 1, "2048".to_string()).unwrap();
    let header =
        BlobHeader::new(BlobCommitment::new("eA==".to_string(), "eQ==".to_string()), 11, vec![params])
            .unwrap();
    let meta = BatchMetadata::new(
        batch_header(),
        BlobSignatoryRecordHash::new("c2ln".to_string()),
        BlobFee::new("AA==".to_string()),
        120,
        BatchHeaderHash::new("aGFzaA==".to_string()),
    )
    .unwrap();
    let proof = BlobVerificationProof::new(
        5,
        9,
        meta,
        BlobInclusionProof::new("cHJvb2Y=".to_string()),
        BlobQuorumIndexes::new("AAE=".to_string()),
    );
    BlobInfo::new(header, proof)
}

#[test]
fn processing_then_confirmed() {
    let processing =
        BlobStatus::new(BlobResult::from_wire_name("PROCESSING"), None).unwrap();
    assert_eq!(processing.status(), &BlobResult::Processing);
    let confirmed =
        BlobStatus::new(BlobResult::from_wire_name("CONFIRMED"), Some(info())).unwrap();
    assert_eq!(confirmed.status(), &BlobResult::Confirmed);
    assert_eq!(confirmed.batch_header_hash().unwrap().to_string(), "aGFzaA==");
    assert_eq!(confirmed.blob_index().unwrap(), 9);
    assert_eq!(confirmed.quorum_numbers().unwrap().to_string(), "AAE=");
}

#[test]
fn confirmed_accessors_reach_every_field() {
    let s = BlobStatus::new(BlobResult::Confirmed, Some(info())).unwrap();
    assert_eq!(s.batch_id().unwrap(), 5);
    assert_eq!(s.data_length().unwrap(), 11);
    assert_eq!(s.commitment().unwrap().x(), "eA==");
    assert_eq!(s.blob_quorum_params().unwrap()[0].quorum_threshold_percentage(), 55);
    assert_eq!(s.blob_quorum_params().unwrap()[0].adversary_threshold_percentage(), 33);
    assert_eq!(s.blob_quorum_params().unwrap()[0].encoded_length(), "2048");
    assert_eq!(s.inclusion_proof().unwrap().to_string(), "cHJvb2Y=");
    assert_eq!(s.quorum_indexes().unwrap().to_string(), "AAE=");
    assert_eq!(s.signatory_record_hash().unwrap().to_string(), "c2ln");
    assert_eq!(s.fee().unwrap().to_string(), "AA==");
    assert_eq!(s.confirmation_block_number().unwrap(), 120);
    assert_eq!(s.reference_block_number().unwrap(), 100);
    assert_eq!(s.batch_root().unwrap().to_string(), "cm9vdA==");
    assert_eq!(s.quorum_signed_percentages().unwrap().to_string(), "ZFo=");
    assert_eq!(s.batch_header().unwrap().quorum_count(), 2);
    assert!(s.info().is_ok());
    assert!(s.blob_header().is_ok());
    assert!(s.blob_verification_proof().is_ok());
    assert!(s.batch_metadata().is_ok());
}

#[test]
fn unconfirmed_accessors_fail_with_the_state() {
    let states = vec![
        BlobResult::Processing,
        BlobResult::Failed,
        BlobResult::Other("FINALIZED".to_string()),
    ];
    for state in states {
        let s = BlobStatus::new(state.clone(), Some(info())).unwrap();
        assert_eq!(s.batch_header_hash(), Err(ClientError::NotConfirmed(state.clone())));
        assert_eq!(s.blob_index(), Err(ClientError::NotConfirmed(state.clone())));
        assert_eq!(s.fee(), Err(ClientError::NotConfirmed(state.clone())));
        assert!(s.info().is_err());
    }
    let bare = BlobStatus::new(BlobResult::Failed, None).unwrap();
    assert_eq!(bare.quorum_numbers(), Err(ClientError::NotConfirmed(BlobResult::Failed)));
}

#[test]
fn confirmed_without_info_is_refused() {
    assert_eq!(
        BlobStatus::new(BlobResult::Confirmed, None).err(),
        Some(ValidationError::MissingInfo)
    );
}

#[test]
fn reply_parts_assemble_by_state() {
    let bad = Err(ValidationError::ThresholdOrder);
    assert_eq!(
        BlobStatus::from_reply_parts(BlobResult::Confirmed, Some(bad.clone())).err(),
        Some(ValidationError::ThresholdOrder)
    );
    assert_eq!(
        BlobStatus::from_reply_parts(BlobResult::Confirmed, None).err(),
        Some(ValidationError::MissingInfo)
    );
    let processing = BlobStatus::from_reply_parts(BlobResult::Processing, Some(bad)).unwrap();
    assert_eq!(processing.status(), &BlobResult::Processing);
    let confirmed = BlobStatus::from_reply_parts(BlobResult::Confirmed, Some(Ok(info()))).unwrap();
    assert_eq!(confirmed.blob_index(), Ok(9));
}

#[test]
fn wire_names() {
    assert_eq!(BlobResult::from_wire_name("FAILED"), BlobResult::Failed);
    assert_eq!(
        BlobResult::from_wire_name("INSUFFICIENT_SIGNATURES"),
        BlobResult::Other("INSUFFICIENT_SIGNATURES".to_string())
    );
    assert_eq!(BlobResult::from_wire_name("processing"), BlobResult::Other("processing".to_string()));
    assert!(!BlobResult::Processing.is_terminal());
    assert!(BlobResult::Failed.is_terminal());
}

#[test]
fn undecodable_reply_settles_by_policy() {
    let d = BlobStatus::from_decoded(None, ParsePolicy::UseDefault).unwrap();
    assert_eq!(d.status(), &BlobResult::Processing);
    assert!(d.info().is_err());
    let m = BlobStatus::from_decoded(Some(Err("bad".to_string())), ParsePolicy::UseDefault).unwrap();
    assert_eq!(m.status(), &BlobResult::Processing);
    assert!(matches!(
        BlobStatus::from_decoded(Some(Err("bad".to_string())), ParsePolicy::PropagateError),
        Err(ClientError::MalformedResponse(m)) if m == "bad"
    ));
    let r = BlobResponse::from_decoded(None, ParsePolicy::UseDefault).unwrap();
    assert_eq!(r.result(), &BlobResult::Other("Default".to_string()));
    assert_eq!(r.request_id(), "");
    assert!(matches!(
        BlobResponse::from_decoded(None, ParsePolicy::PropagateError),
        Err(ClientError::MalformedResponse(_))
    ));
    let kept = BlobResponse::new(BlobResult::Processing, "id".to_string());
    assert_eq!(
        BlobResponse::from_decoded(Some(Ok(kept.clone())), ParsePolicy::PropagateError),
        Ok(kept)
    );
}

#[test]
fn poll_decisions() {
    let policy = PollPolicy { max_attempts: 3, interval_secs: 30 };
    assert_eq!(next_poll_action(policy, 1, &BlobResult::Processing), PollAction::Wait(30));
    assert_eq!(next_poll_action(policy, 3, &BlobResult::Processing), PollAction::GiveUp);
    assert_eq!(next_poll_action(policy, 1, &BlobResult::Confirmed), PollAction::Stop);
    assert_eq!(next_poll_action(policy, 9, &BlobResult::Failed), PollAction::Stop);
}
