use std::time::Duration;

use eas_client::chain::sepolia;
use eas_client::config::{default_confirmations, default_tx_timeout_secs};
use eas_client::EasConfig;

#[test]
fn test_defaults() {
    assert_eq!(default_tx_timeout_secs(), 60);
    assert_eq!(default_confirmations(), 1);
}

#[test]
fn test_tx_timeout_duration() {
    let config = EasConfig {
        rpc_url: "http://localhost:8545".to_string(),
        eas_contract_address: "0x123".to_string(),
        schema_registry_address: "0x456".to_string(),
        chain_id: 1,
        tx_timeout_secs: 30,
        confirmations: 2,
    };
    assert_eq!(config.tx_timeout(), Duration::from_secs(30));
}

#[test]
fn for_chain_takes_the_chain_addresses_and_defaults() {
    let chain = sepolia();
    let config = EasConfig::for_chain(&chain, "https://rpc.example.org");
    assert_eq!(config.rpc_url, "https://rpc.example.org");
    assert_eq!(config.eas_contract_address, chain.eas_address);
    assert_eq!(config.schema_registry_address, chain.schema_registry_address);
    assert_eq!(config.chain_id, 11155111);
    assert_eq!(config.tx_timeout_secs, 60);
    assert_eq!(config.confirmations, 1);
    assert_eq!(config.tx_timeout(), Duration::from_secs(60));
}
