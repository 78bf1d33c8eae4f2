use eas_client::chain::{arbitrum_one, base, optimism, sepolia};
use eas_client::client::attestation::{address_from_outcome, uid_from_hex_outcome};
use eas_client::chain::ethereum_mainnet;
use eas_client::client::attestation::{
    attestation_from_receipt, attestation_from_record, batch_result, extract_uid_from_receipt,
    extract_uids_from_receipt, parse_address, parse_bytes32, prepare_attestation, prepare_batch,
    OnchainAttestation, ReceiptLog,
};
use eas_client::client::private_key_digits;
use eas_client::error::{ContractError, ProviderError};
use eas_client::types::UtcTimestamp;
use eas_client::{AttestationRequest, EasClient, EasConfig, EasError};

fn config() -> EasConfig {
    EasConfig::for_chain(&ethereum_mainnet(), "http://localhost:8545")
}

const KEY: &str = "ac0974bec39a17e36ba4a6b4d238ff944bacb478cbed5efcae784d7bf4f2ff80";

#[test]
fn connect_prepare_checks_key_then_url() {
    let c = config();
    let plan = EasClient::connect_prepare(&c, KEY).unwrap();
    assert_eq!(plan.rpc_url, "http://localhost:8545/");
    assert_eq!(plan.signing_key[0], 0xac);
    assert_eq!(plan.signing_key[31], 0x80);
    let plan = EasClient::connect_prepare(&c, &format!("0x{KEY}")).unwrap();
    assert_eq!(plan.signing_key[1], 0x09);

    let bad_keys = vec!["bad key".to_string(), "0x00".to_string(), "00".repeat(32), "ff".repeat(32)];
    for bad_key in &bad_keys {
        match EasClient::connect_prepare(&c, bad_key) {
            Err(EasError::Config { message }) => {
                assert!(message.starts_with("invalid private key: "))
            }
            Err(other) => panic!("unexpected {other:?}"),
            Ok(_) => panic!("accepted {bad_key}"),
        }
    }
    // One less than the group order is the largest key.
    let largest = "fffffffffffffffffffffffffffffffebaaedce6af48a03bbfd25e8cd0364140";
    assert!(EasClient::connect_prepare(&c, largest).is_ok());
    let order = "fffffffffffffffffffffffffffffffebaaedce6af48a03bbfd25e8cd0364141";
    assert!(EasClient::connect_prepare(&c, order).is_err());

    let mut bad = config();
    bad.rpc_url = "not a url".to_string();
    match EasClient::connect_prepare(&bad, KEY) {
        Err(EasError::Config { message }) => assert!(message.starts_with("invalid RPC URL: ")),
        Err(other) => panic!("unexpected {other:?}"),
        Ok(_) => panic!("accepted a bad URL"),
    }
    // The key is checked first.
    match EasClient::connect_prepare(&bad, "zz") {
        Err(EasError::Config { message }) => {
            assert!(message.starts_with("invalid private key: "))
        }
        Err(other) => panic!("unexpected {other:?}"),
        Ok(_) => panic!("accepted a bad key"),
    }
}

#[test]
fn signing_key_outcomes() {
    assert_eq!(EasClient::signing_key_from_outcome(Ok([5; 32])).unwrap(), [5; 32]);
    match EasClient::signing_key_from_outcome(Err("signature error".to_string())) {
        Err(EasError::Config { message }) => {
            assert_eq!(message, "invalid private key: signature error")
        }
        other => panic!("unexpected {other:?}"),
    }
}

#[test]
fn connect_finish_checks_chain_and_addresses() {
    let c = config();
    let client = EasClient::connect_finish(&c, Ok(1)).unwrap();
    assert_eq!(client.chain_id(), 1);
    assert_eq!(client.confirmations(), 1);
    assert_eq!(client.eas_address()[0], 0xA1);
    assert_eq!(client.eas_address()[19], 0x19);
    assert_eq!(client.schema_registry_address()[0], 0xA7);

    match EasClient::connect_finish(&c, Ok(5)) {
        Err(EasError::Provider(ProviderError::ChainIdMismatch { expected, actual })) => {
            assert_eq!((expected, actual), (1, 5))
        }
        other => panic!("unexpected {other:?}"),
    }
    match EasClient::connect_finish(&c, Err("down".to_string())) {
        Err(EasError::Provider(ProviderError::RequestFailed { details })) => {
            assert_eq!(details, "failed to get chain ID: down")
        }
        other => panic!("unexpected {other:?}"),
    }
    let mut bad = config();
    bad.schema_registry_address = "0x1234".to_string();
    match EasClient::connect_finish(&bad, Ok(1)) {
        Err(EasError::Config { message }) => {
            assert!(message.starts_with("invalid schema registry address: "))
        }
        other => panic!("unexpected {other:?}"),
    }
}

#[test]
fn private_key_prefix_is_stripped() {
    assert_eq!(private_key_digits("0xabc"), "abc");
    assert_eq!(private_key_digits("abc"), "abc");
    assert_eq!(private_key_digits("0X1"), "0X1");
}

#[test]
fn addresses_and_uids_parse() {
    let a = parse_address("0x000000000000000000000000000000000000dEaD").unwrap();
    assert_eq!(a[18..], [0xde, 0xad]);
    assert!(parse_address("000000000000000000000000000000000000dead").is_ok());
    assert!(parse_address("0X000000000000000000000000000000000000dead").is_ok());
    match parse_address("0xdead") {
        Err(EasError::Config { message }) => assert!(message.starts_with("invalid address: ")),
        other => panic!("unexpected {other:?}"),
    }
    match parse_bytes32("0xabcd") {
        Err(EasError::Contract(ContractError::CallFailed { details })) => {
            assert_eq!(details, "expected 32 bytes")
        }
        other => panic!("unexpected {other:?}"),
    }
    match parse_bytes32("0xzz") {
        Err(EasError::Contract(ContractError::CallFailed { details })) => {
            assert!(details.starts_with("bad hex: "))
        }
        other => panic!("unexpected {other:?}"),
    }
}

fn request(recipient: &str) -> AttestationRequest {
    let mut r = AttestationRequest::simple(&format!("0x{}", "11".repeat(32)), vec![9, 8]);
    r.recipient = recipient.to_string();
    r.expiration_time = 77;
    r.revocable = true;
    r
}

#[test]
fn attestation_call_parses_the_request() {
    let r = request("0x00000000000000000000000000000000000000ff");
    let call = prepare_attestation(&r).unwrap();
    assert_eq!(call.schema, [0x11; 32]);
    assert_eq!(call.data.recipient[19], 0xff);
    assert_eq!(call.data.ref_uid, [0; 32]);
    assert_eq!(call.data.expiration_time, 77);
    assert!(call.data.revocable);
    assert_eq!(call.data.data, vec![9, 8]);

    let bad = request("nope");
    assert!(matches!(prepare_attestation(&bad), Err(EasError::Config { .. })));
}

#[test]
fn batch_call_checks_in_order() {
    let schema = format!("0x{}", "22".repeat(32));
    assert!(matches!(
        prepare_batch(&schema, &[]),
        Err(EasError::Contract(ContractError::EmptyBatch))
    ));
    assert!(matches!(
        prepare_batch("0x12", &[]),
        Err(EasError::Contract(ContractError::EmptyBatch))
    ));
    let good = request("0x00000000000000000000000000000000000000ff");
    assert!(matches!(
        prepare_batch("0x12", &[good.clone()]),
        Err(EasError::Contract(ContractError::CallFailed { .. }))
    ));
    let call = prepare_batch(&schema, &[good.clone(), good.clone()]).unwrap();
    assert_eq!(call.schema, [0x22; 32]);
    assert_eq!(call.data.len(), 2);

    let mut bad_ref = good.clone();
    bad_ref.ref_uid = "0x00".to_string();
    let bad_recipient = request("0x1");
    match prepare_batch(&schema, &[good.clone(), bad_ref, bad_recipient]) {
        Err(EasError::Contract(ContractError::CallFailed { details })) => {
            assert_eq!(details, "expected 32 bytes")
        }
        other => panic!("unexpected {other:?}"),
    }
}

fn log(topics: usize, first: u8, len: usize) -> ReceiptLog {
    ReceiptLog { topic_count: topics, data: vec![first; len] }
}

#[test]
fn uids_come_from_qualifying_logs() {
    let logs = vec![log(1, 1, 64), log(3, 2, 31), log(3, 3, 64), log(2, 4, 32)];
    assert_eq!(extract_uid_from_receipt(&logs).unwrap(), [3; 32]);
    assert_eq!(extract_uids_from_receipt(&logs).unwrap(), vec![[3; 32], [4; 32]]);
    let none = vec![log(1, 1, 64), log(3, 2, 31)];
    assert!(matches!(
        extract_uid_from_receipt(&none),
        Err(EasError::Contract(ContractError::UidExtractionFailed))
    ));
    assert!(matches!(
        extract_uids_from_receipt(&[]),
        Err(EasError::Contract(ContractError::UidExtractionFailed))
    ));
}

#[test]
fn records_format_hex() {
    let r = request("0x00000000000000000000000000000000000000ff");
    let a = attestation_from_receipt(&r, &[0xcd; 32], &[0xef; 32], 1700000000);
    assert_eq!(a.uid, format!("0x{}", "ef".repeat(32)));
    assert_eq!(a.transaction_hash, format!("0x{}", "cd".repeat(32)));
    assert_eq!(a.schema_uid, r.schema_uid);
    assert_eq!(a.attester, "");
    assert_eq!(a.timestamp, 1700000000);
    assert!(!a.revoked);

    let mut attester = [0u8; 20];
    attester[19] = 0xad;
    let rec = OnchainAttestation {
        uid: [1; 32],
        schema: [2; 32],
        time: 5,
        expiration_time: 6,
        revocation_time: 7,
        ref_uid: [0; 32],
        recipient: [0; 20],
        attester,
        revocable: true,
        data: vec![1],
    };
    let a = attestation_from_record(&rec);
    assert_eq!(a.attester, format!("0x{}ad", "00".repeat(19)));
    assert_eq!(a.schema_uid, format!("0x{}", "02".repeat(32)));
    assert!(a.revoked);
    assert_eq!(a.timestamp, 5);
    assert_eq!(a.transaction_hash, "");

    let b = batch_result(&[[1; 32], [2; 32]], &[3; 32], UtcTimestamp { secs: 10, nanos: 5 });
    assert_eq!(b.uids, vec![format!("0x{}", "01".repeat(32)), format!("0x{}", "02".repeat(32))]);
    assert_eq!(b.transaction_hash, format!("0x{}", "03".repeat(32)));
    assert_eq!(b.timestamp, UtcTimestamp { secs: 10, nanos: 5 });
}

#[test]
fn outcomes_of_the_parsers() {
    match uid_from_hex_outcome(Err("Odd number of digits".to_string())) {
        Err(EasError::Contract(ContractError::CallFailed { details })) => {
            assert_eq!(details, "bad hex: Odd number of digits")
        }
        other => panic!("unexpected {other:?}"),
    }
    assert!(uid_from_hex_outcome(Ok(vec![1; 33])).is_err());
    assert_eq!(uid_from_hex_outcome(Ok(vec![2; 32])).unwrap(), [2; 32]);
    assert_eq!(address_from_outcome(Ok([3; 20])).unwrap(), [3; 20]);
    match address_from_outcome(Err("invalid string length".to_string())) {
        Err(EasError::Config { message }) => {
            assert_eq!(message, "invalid address: invalid string length")
        }
        other => panic!("unexpected {other:?}"),
    }
    assert_eq!(
        EasClient::rpc_url_from_outcome(Ok("http://a/".to_string())).unwrap(),
        "http://a/"
    );
    match EasClient::rpc_url_from_outcome(Err("relative URL without a base".to_string())) {
        Err(EasError::Config { message }) => {
            assert_eq!(message, "invalid RPC URL: relative URL without a base")
        }
        other => panic!("unexpected {other:?}"),
    }
}

#[test]
fn every_known_chain_config_connects() {
    for chain in [ethereum_mainnet(), arbitrum_one(), base(), optimism(), sepolia()] {
        let c = EasConfig::for_chain(&chain, "http://localhost:8545");
        let client = EasClient::connect_finish(&c, Ok(chain.chain_id)).unwrap();
        assert_eq!(client.chain_id(), chain.chain_id);
    }
}

#[test]
fn simple_requests_always_prepare() {
    let r = AttestationRequest::simple(&format!("0x{}", "33".repeat(32)), vec![]);
    let call = prepare_attestation(&r).unwrap();
    assert_eq!(call.data.recipient, [0; 20]);
    assert_eq!(call.data.ref_uid, [0; 32]);
    assert!(!call.data.revocable);
}
