//! Known chain configurations with EAS contract addresses.
//!
//! EAS is deployed at the same addresses across all supported chains.
//! See: https://docs.attest.org/docs/quick--start/contracts

use vstd::prelude::*;

verus! {

/// EAS v1.2.0 contract address (the same on all supported chains).
pub const EAS_ADDRESS: &'static str = "0xA1207F3BBa224E2c9c3c6D5aF63D816e52E89119";

/// Schema Registry contract address (the same on all supported chains).
pub const SCHEMA_REGISTRY_ADDRESS: &'static str = "0xA7b39296258348C78294F95B872b282326A97BDF";

/// Chain configuration with EAS contract addresses.
#[derive(Debug, Clone, Copy)]
pub struct ChainConfig {
    /// Human-readable chain name.
    pub name: &'static str,
    /// Chain ID.
    pub chain_id: u64,
    /// EAS contract address.
    pub eas_address: &'static str,
    /// Schema Registry contract address.
    pub schema_registry_address: &'static str,
}

impl ChainConfig {
    /// The name, chain ID, EAS address and schema registry address.
    pub open spec fn fields(self) -> (Seq<char>, u64, Seq<char>, Seq<char>) {
        (self.name@, self.chain_id, self.eas_address@, self.schema_registry_address@)
    }
}

/// The supported chains by chain ID: name, chain ID, EAS contract address
/// and schema registry address. Every supported chain has the shared EAS
/// and schema registry addresses.
pub open spec fn known_chain(chain_id: u64) -> Option<(Seq<char>, u64, Seq<char>, Seq<char>)> {
    if chain_id == 1 {
        Some(("Ethereum Mainnet"@, 1, EAS_ADDRESS@, SCHEMA_REGISTRY_ADDRESS@))
    } else if chain_id == 42161 {
        Some(("Arbitrum One"@, 42161, EAS_ADDRESS@, SCHEMA_REGISTRY_ADDRESS@))
    } else if chain_id == 8453 {
        Some(("Base"@, 8453, EAS_ADDRESS@, SCHEMA_REGISTRY_ADDRESS@))
    } else if chain_id == 10 {
        Some(("Optimism"@, 10, EAS_ADDRESS@, SCHEMA_REGISTRY_ADDRESS@))
    } else if chain_id == 11155111 {
        Some(("Sepolia"@, 11155111, EAS_ADDRESS@, SCHEMA_REGISTRY_ADDRESS@))
    } else {
        None
    }
}

/// Ethereum Mainnet.
pub fn ethereum_mainnet() -> (c: ChainConfig)
    ensures
        known_chain(1) == Some(c.fields()),
{
    ChainConfig {
        name: "Ethereum Mainnet",
        chain_id: 1,
        eas_address: EAS_ADDRESS,
        schema_registry_address: SCHEMA_REGISTRY_ADDRESS,
    }
}

/// Arbitrum One (L2).
pub fn arbitrum_one() -> (c: ChainConfig)
    ensures
        known_chain(42161) == Some(c.fields()),
{
    ChainConfig {
        name: "Arbitrum One",
        chain_id: 42161,
        eas_address: EAS_ADDRESS,
        schema_registry_address: SCHEMA_REGISTRY_ADDRESS,
    }
}

/// Base (L2).
pub fn base() -> (c: ChainConfig)
    ensures
        known_chain(8453) == Some(c.fields()),
{
    ChainConfig {
        name: "Base",
        chain_id: 8453,
        eas_address: EAS_ADDRESS,
        schema_registry_address: SCHEMA_REGISTRY_ADDRESS,
    }
}

/// Optimism (L2).
pub fn optimism() -> (c: ChainConfig)
    ensures
        known_chain(10) == Some(c.fields()),
{
    ChainConfig {
        name: "Optimism",
        chain_id: 10,
        eas_address: EAS_ADDRESS,
        schema_registry_address: SCHEMA_REGISTRY_ADDRESS,
    }
}

/// Ethereum Sepolia (testnet).
pub fn sepolia() -> (c: ChainConfig)
    ensures
        known_chain(11155111) == Some(c.fields()),
{
    ChainConfig {
        name: "Sepolia",
        chain_id: 11155111,
        eas_address: EAS_ADDRESS,
        schema_registry_address: SCHEMA_REGISTRY_ADDRESS,
    }
}

/// Looks up a chain config by chain ID; `None` for unsupported chains.
pub fn chain_by_id(chain_id: u64) -> (res: Option<ChainConfig>)
    ensures
        match known_chain(chain_id) {
            Some(f) => res matches Some(c) && c.fields() == f,
            None => res is None,
        },
        res is Some <==> (chain_id == 1 || chain_id == 42161 || chain_id == 8453 || chain_id == 10
            || chain_id == 11155111),
        res matches Some(c) ==> c.chain_id == chain_id,
{
    match chain_id {
        1 => Some(ethereum_mainnet()),
        42161 => Some(arbitrum_one()),
        8453 => Some(base()),
        10 => Some(optimism()),
        11155111 => Some(sepolia()),
        _ => None,
    }
}

/// The config found for a chain ID carries that chain ID.
pub proof fn lemma_lookup_keeps_chain_id(chain_id: u64)
    ensures
        known_chain(chain_id) matches Some(f) ==> f.1 == chain_id,
{
}

/// Exactly five chains are supported: Ethereum Mainnet (1), Arbitrum One
/// (42161), Base (8453), Optimism (10) and Sepolia (11155111). Every other
/// chain ID has no configuration.
pub proof fn lemma_supported_chain_ids(chain_id: u64)
    ensures
        known_chain(chain_id) is Some <==> (chain_id == 1 || chain_id == 42161 || chain_id == 8453
            || chain_id == 10 || chain_id == 11155111),
{
}

/// `0x` followed by 40 hex digits: the text of an Ethereum address.
pub open spec fn is_address_text(s: Seq<char>) -> bool {
    &&& s.len() == 42
    &&& s[0] == '0'
    &&& s[1] == 'x'
    &&& forall|i: int|
        2 <= i < 42 ==> {
            let c = #[trigger] s[i];
            ('0' <= c <= '9') || ('a' <= c <= 'f') || ('A' <= c <= 'F')
        }
}

/// Both contract addresses of every supported chain are `0x` followed by
/// 40 hex digits.
pub proof fn lemma_known_addresses_well_formed(chain_id: u64)
    ensures
        known_chain(chain_id) matches Some(f) ==> is_address_text(f.2) && is_address_text(f.3),
{
    reveal_strlit("0xA1207F3BBa224E2c9c3c6D5aF63D816e52E89119");
    reveal_strlit("0xA7b39296258348C78294F95B872b282326A97BDF");
}

/// Every supported chain has the shared EAS address and the shared schema
/// registry address, so any two supported chains agree on both.
pub proof fn lemma_supported_chains_share_addresses(a: u64, b: u64)
    ensures
        known_chain(a) matches Some(f) ==> f.2 == EAS_ADDRESS@ && f.3 == SCHEMA_REGISTRY_ADDRESS@,
        known_chain(a) matches Some(f) ==> (known_chain(b) matches Some(g) ==> (f.2 == g.2 && f.3
            == g.3)),
{
}

} // verus!
