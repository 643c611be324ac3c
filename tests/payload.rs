use eigenda_client::payload::{EigenDaBlobPayload, SecurityParams, security_params_of};

#[test]
fn v2_payload_of_hello_world() {
    let payload = EigenDaBlobPayload::encode(b"hello world", 0, 40, 60);
    assert_eq!(payload.data(), "aGVsbG8gd29ybGQ=");
    assert_eq!(
        payload.to_wire(),
        "{\"data\":\"aGVsbG8gd29ybGQ=\",\"security_params\":[{\"quorum_id\":0,\"adversary_threshold\":40,\"quorum_threshold\":60}]}"
    );
}

#[test]
fn v1_payload_has_data_only() {
    let payload = EigenDaBlobPayload::new("QUJD".to_string());
    assert_eq!(payload.to_wire(), "{\"data\":\"QUJD\"}");
    assert_eq!(payload.security_params(), None);
}

#[test]
fn v1_payload_escapes_data() {
    let payload = EigenDaBlobPayload::new("a\"b\\c".to_string());
    assert_eq!(payload.to_wire(), "{\"data\":\"a\\\"b\\\\c\"}");
}

#[test]
fn v2_round_trip_recovers_params() {
    let params = SecurityParams { quorum_id: 7, adversary_threshold: 33, quorum_threshold: 4294967295 };
    let payload = EigenDaBlobPayload::with_security_params("eA==".to_string(), params);
    assert_eq!(security_params_of(&payload.to_wire()), Some(params));
}

#[test]
fn v2_round_trip_with_quotes_in_data() {
    let params = SecurityParams { quorum_id: 1, adversary_threshold: 0, quorum_threshold: 100 };
    let payload =
        EigenDaBlobPayload::with_security_params(",\"quorum_threshold\":9}]}".to_string(), params);
    assert_eq!(security_params_of(&payload.to_wire()), Some(params));
}

#[test]
fn v2_parse_refuses_other_shapes() {
    assert_eq!(security_params_of("{\"data\":\"QUJD\"}"), None);
    assert_eq!(security_params_of(""), None);
    assert_eq!(
        security_params_of(
            "{\"data\":\"x\",\"security_params\":[{\"quorum_id\":1,\"adversary_threshold\":2,\"quorum_threshold\":4294967296}]}"
        ),
        None
    );
    assert_eq!(
        security_params_of(
            "{\"blob\":\"x\",\"security_params\":[{\"quorum_id\":1,\"adversary_threshold\":2,\"quorum_threshold\":3}]}"
        ),
        None
    );
}

#[test]
fn v2_parse_reads_leading_zeros() {
    assert_eq!(
        security_params_of(
            "{\"data\":\"x\",\"security_params\":[{\"quorum_id\":007,\"adversary_threshold\":2,\"quorum_threshold\":3}]}"
        ),
        Some(SecurityParams { quorum_id: 7, adversary_threshold: 2, quorum_threshold: 3 })
    );
}

#[test]
fn v1_payload_escapes_control_characters() {
    let payload = EigenDaBlobPayload::new("\u{1}\n\t\u{8}\u{c}\r\u{1f}é".to_string());
    assert_eq!(
        payload.to_wire(),
        "{\"data\":\"\\u0001\\n\\t\\b\\f\\r\\u001fé\"}"
    );
}
