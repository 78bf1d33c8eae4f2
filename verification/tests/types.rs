use eas_client::AttestationRequest;

#[test]
fn test_simple_attestation_request() {
    let req = AttestationRequest::simple("0xabc123", vec![1, 2, 3]);
    assert_eq!(req.schema_uid, "0xabc123");
    assert!(!req.revocable);
    assert_eq!(req.expiration_time, 0);
    assert!(req.recipient.starts_with("0x000"));
}

#[test]
fn simple_request_uses_zero_address_and_zero_ref_uid() {
    let req = AttestationRequest::simple("0xabc123", vec![1, 2, 3]);
    assert_eq!(req.data, vec![1, 2, 3]);
    assert_eq!(req.recipient, format!("0x{}", "0".repeat(40)));
    assert_eq!(req.ref_uid, format!("0x{}", "0".repeat(64)));
}
