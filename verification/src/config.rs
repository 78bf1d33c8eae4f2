//! EAS client configuration.

use vstd::prelude::*;
use vstd::string::*;

use core::time::Duration;

use crate::chain::ChainConfig;

verus! {

/// Configuration for the EAS client.
#[derive(Debug, Clone)]
pub struct EasConfig {
    /// Ethereum JSON-RPC endpoint URL.
    pub rpc_url: String,
    /// EAS contract address (0x-prefixed hex).
    pub eas_contract_address: String,
    /// Schema Registry contract address (0x-prefixed hex).
    pub schema_registry_address: String,
    /// Expected chain ID (for safety checks).
    pub chain_id: u64,
    /// Transaction confirmation timeout in seconds.
    pub tx_timeout_secs: u64,
    /// Number of block confirmations to wait for.
    pub confirmations: u64,
}

/// The transaction timeout used when a configuration gives none: 60 seconds.
pub fn default_tx_timeout_secs() -> (secs: u64)
    ensures
        secs == 60,
{
    60
}

/// The number of confirmations used when a configuration gives none: 1.
pub fn default_confirmations() -> (n: u64)
    ensures
        n == 1,
{
    1
}

/// The duration of a whole number of seconds.
pub uninterp spec fn duration_of_secs(secs: u64) -> Duration;

/// Calls `Duration::from_secs`, whose result depends on the seconds alone;
/// what the duration holds is not stated here.
#[verifier::external_body]
fn duration_from_secs(secs: u64) -> (d: Duration)
    ensures
        d == duration_of_secs(secs),
{
    Duration::from_secs(secs)
}

impl EasConfig {
    /// Creates the config for a known chain, with the chain's contract
    /// addresses and the default timeout and confirmation count.
    pub fn for_chain(chain: &ChainConfig, rpc_url: &str) -> (c: Self)
        ensures
            c.rpc_url@ == rpc_url@,
            c.eas_contract_address@ == chain.eas_address@,
            c.schema_registry_address@ == chain.schema_registry_address@,
            c.chain_id == chain.chain_id,
            c.tx_timeout_secs == 60,
            c.confirmations == 1,
    {
        EasConfig {
            rpc_url: String::from_str(rpc_url),
            eas_contract_address: String::from_str(chain.eas_address),
            schema_registry_address: String::from_str(chain.schema_registry_address),
            chain_id: chain.chain_id,
            tx_timeout_secs: default_tx_timeout_secs(),
            confirmations: default_confirmations(),
        }
    }

    /// Returns the transaction timeout as a `Duration`.
    pub fn tx_timeout(&self) -> (d: Duration)
        ensures
            d == duration_of_secs(self.tx_timeout_secs),
    {
        duration_from_secs(self.tx_timeout_secs)
    }
}

} // verus!
