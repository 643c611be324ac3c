use eigenda_client::batch::BatchHeaderHash;
use eigenda_client::cache::ResponseCache;
use eigenda_client::client::{DISPERSE_BLOB, GET_BLOB_STATUS, RETRIEVE_BLOB};
use eigenda_client::error::ClientError;
use eigenda_client::payload::SecurityParams;
use eigenda_client::response::BlobResponse;
use eigenda_client::status::BlobResult;
use eigenda_client::wire::json_document;
use eigenda_client::{
    finish_dispersal, status_document, transport_outcome, EigenDaGrpcClient, GrpcOutput,
};

fn client() -> EigenDaGrpcClient {
    EigenDaGrpcClient::new(
        "eigenda/api/proto".to_string(),
        "eigenda/api/proto/disperser/disperser.proto".to_string(),
        "localhost:443".to_string(),
    )
}

#[test]
fn disperse_call_carries_the_payload() {
    let call = client().disperse_blob("QUJD".to_string());
    assert_eq!(call.method, DISPERSE_BLOB);
    assert_eq!(call.data, "{\"data\":\"QUJD\"}");
    assert_eq!(call.import_path, "eigenda/api/proto");
    assert_eq!(call.proto, "eigenda/api/proto/disperser/disperser.proto");
    assert_eq!(call.server_address, "localhost:443");
}

#[test]
fn v2_client_disperses_with_security_params() {
    let c = EigenDaGrpcClient::builder()
        .proto_path("p".to_string())
        .disperser_path("d".to_string())
        .server_address("s".to_string())
        .security_params(SecurityParams { quorum_id: 0, adversary_threshold: 40, quorum_threshold: 60 })
        .build()
        .unwrap();
    let call = c.disperse_blob("aGVsbG8gd29ybGQ=".to_string());
    assert_eq!(
        call.data,
        "{\"data\":\"aGVsbG8gd29ybGQ=\",\"security_params\":[{\"quorum_id\":0,\"adversary_threshold\":40,\"quorum_threshold\":60}]}"
    );
}

#[test]
fn status_and_retrieve_requests() {
    let c = client();
    let status = c.get_blob_status("abc-1");
    assert_eq!(status.method, GET_BLOB_STATUS);
    assert_eq!(status.data, "{\"request_id\":\"abc-1\"}");
    let retrieve = c.retrieve_blob(&BatchHeaderHash::new("aGFzaA==".to_string()), 42);
    assert_eq!(retrieve.method, RETRIEVE_BLOB);
    assert_eq!(retrieve.data, "{\"batch_header_hash\":\"aGFzaA==\",\"blob_index\":\"42\"}");
}

#[test]
fn update_server_address_changes_only_the_address() {
    let mut c = client();
    c.update_server_address("disperser:443".to_string());
    assert_eq!(c.server_address(), "disperser:443");
    assert_eq!(c.proto_path(), "eigenda/api/proto");
}

#[test]
fn builder_reports_missing_settings() {
    let missing = EigenDaGrpcClient::builder().proto_path("p".to_string()).build();
    assert_eq!(missing, Err(ClientError::Configuration("disperser_path".to_string())));
    let none = EigenDaGrpcClient::builder().build();
    assert_eq!(none, Err(ClientError::Configuration("proto_path".to_string())));
}

#[test]
fn transport_failure_is_surfaced_verbatim() {
    let out = GrpcOutput {
        success: false,
        stdout: String::new(),
        stderr: "connection refused".to_string(),
    };
    assert_eq!(transport_outcome(out), Err(ClientError::Transport("connection refused".to_string())));
    let ok = GrpcOutput { success: true, stdout: "{}".to_string(), stderr: "warn".to_string() };
    assert_eq!(transport_outcome(ok), Ok("{}".to_string()));
}

#[test]
fn document_starts_at_first_brace() {
    assert_eq!(json_document("banner line\n{\"a\":{}}"), Some("{\"a\":{}}".to_string()));
    assert_eq!(json_document("no document here"), None);
    assert_eq!(json_document(""), None);
}

#[test]
fn status_document_cleans_whitespace() {
    let reply = "Resolved method\n{\n  \"status\":   \"PROCESSING\"\\n}";
    assert_eq!(status_document(reply), Some("{ \"status\": \"PROCESSING\" }".to_string()));
    assert_eq!(status_document("connection banner only"), None);
}

#[test]
fn accepted_dispersals_are_cached() {
    let mut cache = ResponseCache::new(8);
    let accepted = BlobResponse::new(BlobResult::Processing, "r1".to_string());
    let failed = BlobResponse::new(BlobResult::Failed, "r2".to_string());
    assert_eq!(finish_dispersal(&mut cache, Ok(accepted.clone())), Ok(accepted));
    assert_eq!(finish_dispersal(&mut cache, Ok(failed.clone())), Ok(failed));
    let err = Err(ClientError::Transport("down".to_string()));
    assert_eq!(finish_dispersal(&mut cache, err.clone()), err);
    assert_eq!(cache.len(), 1);
    assert!(cache.get("r1").is_some());
}
