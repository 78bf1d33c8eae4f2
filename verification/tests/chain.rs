use eas_client::chain::{arbitrum_one, base, ethereum_mainnet, optimism, sepolia};
use eas_client::chain_by_id;

#[test]
fn test_chain_lookup() {
    let chain = chain_by_id(42161).unwrap();
    assert_eq!(chain.name, "Arbitrum One");
    assert_eq!(chain.chain_id, 42161);

    assert!(chain_by_id(999999).is_none());
}

#[test]
fn test_known_chains() {
    assert_eq!(ethereum_mainnet().chain_id, 1);
    assert_eq!(arbitrum_one().chain_id, 42161);
    assert_eq!(base().chain_id, 8453);
    assert_eq!(optimism().chain_id, 10);
    assert_eq!(sepolia().chain_id, 11155111);
}

#[test]
fn test_addresses_format() {
    assert!(ethereum_mainnet().eas_address.starts_with("0x"));
    assert_eq!(ethereum_mainnet().eas_address.len(), 42);
}

#[test]
fn lookup_gives_each_known_chain() {
    for (id, name) in [
        (1u64, "Ethereum Mainnet"),
        (42161, "Arbitrum One"),
        (8453, "Base"),
        (10, "Optimism"),
        (11155111, "Sepolia"),
    ] {
        let c = chain_by_id(id).unwrap();
        assert_eq!(c.chain_id, id);
        assert_eq!(c.name, name);
    }
    assert!(chain_by_id(0).is_none());
    assert!(chain_by_id(2).is_none());
}

#[test]
fn known_addresses_are_address_texts() {
    for c in [ethereum_mainnet(), arbitrum_one(), base(), optimism(), sepolia()] {
        for a in [c.eas_address, c.schema_registry_address] {
            assert_eq!(a.len(), 42);
            assert!(a.starts_with("0x"));
            assert!(a[2..].chars().all(|ch| ch.is_ascii_hexdigit()));
        }
    }
    assert_eq!(ethereum_mainnet().eas_address, "0xA1207F3BBa224E2c9c3c6D5aF63D816e52E89119");
    assert_eq!(base().schema_registry_address, "0xA7b39296258348C78294F95B872b282326A97BDF");
}

#[test]
fn supported_chains_share_addresses() {
    let all = [ethereum_mainnet(), arbitrum_one(), base(), optimism(), sepolia()];
    for a in &all {
        for b in &all {
            assert_eq!(a.eas_address, b.eas_address);
            assert_eq!(a.schema_registry_address, b.schema_registry_address);
        }
    }
    let a = chain_by_id(1).unwrap();
    let b = chain_by_id(42161).unwrap();
    assert_eq!(a.eas_address, b.eas_address);
    assert_eq!(a.schema_registry_address, b.schema_registry_address);
}
