//! Immutable operator configuration, validated once at startup.
//!
//! The surrounding binary reads raw values from its environment and hands
//! them here; every constructor states exactly which inputs it accepts, so a
//! malformed configuration surfaces as a structured error before the operator
//! loop begins rather than as a crash in the middle of a cycle.

use vstd::prelude::*;

verus! {

/// Which proving backend the operator drives.
#[derive(PartialEq, Eq, Structural, Clone, Copy, Debug)]
pub enum BackendKind {
    /// Synchronous in-process proving.
    Local,
    /// A polling remote proving service.
    RemoteQueue,
    /// A reverse-Dutch-auction proving marketplace.
    Marketplace,
}

/// A configuration value the operator refuses to start with.
#[derive(Debug)]
pub enum ConfigError {
    EmptyRpcUrl,
    EmptySigningKey,
    /// The contract address is not 20 bytes long.
    BadAddressLength { got: usize },
    /// The sleep interval between cycles must be at least one minute.
    ZeroLoopDelay,
    /// The auction's price floor exceeds its ceiling.
    PriceBoundsInverted { min: u128, max: u128 },
    /// The auction's fulfillment window must be positive.
    ZeroTimeout,
}

/// Validated operator configuration.
pub struct OperatorConfig {
    /// Destination RPC endpoint for the settlement chain.
    pub rpc_url: String,
    /// Signing key material, opaque to the operator.
    pub signing_key: String,
    /// 20-byte settlement contract address.
    pub contract_address: Vec<u8>,
    /// Minutes to sleep between operator cycles.
    pub loop_delay_mins: u64,
    /// Which proving backend to drive.
    pub backend: BackendKind,
}

impl OperatorConfig {
    /// What a validated configuration guarantees.
    pub open spec fn wf(self) -> bool {
        &&& self.rpc_url@.len() > 0
        &&& self.signing_key@.len() > 0
        &&& self.contract_address@.len() == 20
        &&& self.loop_delay_mins >= 1
    }

    /// Validates raw configuration values.
    ///
    /// Accepts exactly the inputs with a nonempty RPC endpoint, a nonempty
    /// signing key, a 20-byte contract address, and a sleep interval of at
    /// least one minute.
    pub fn new(
        rpc_url: String,
        signing_key: String,
        contract_address: Vec<u8>,
        loop_delay_mins: u64,
        backend: BackendKind,
    ) -> (r: Result<OperatorConfig, ConfigError>)
        ensures
            r is Ok <==> {
                &&& rpc_url@.len() > 0
                &&& signing_key@.len() > 0
                &&& contract_address@.len() == 20
                &&& loop_delay_mins >= 1
            },
            r matches Ok(c) ==> {
                &&& c.rpc_url@ == rpc_url@
                &&& c.signing_key@ == signing_key@
                &&& c.contract_address@ == contract_address@
                &&& c.loop_delay_mins == loop_delay_mins
                &&& c.backend == backend
                &&& c.wf()
            },
            r matches Err(e) ==> match e {
                ConfigError::EmptyRpcUrl => rpc_url@.len() == 0,
                ConfigError::EmptySigningKey => signing_key@.len() == 0,
                ConfigError::BadAddressLength { got } => got == contract_address@.len()
                    && got != 20,
                ConfigError::ZeroLoopDelay => loop_delay_mins == 0,
                _ => false,
            },
    {
        if rpc_url.as_str().is_empty() {
            return Err(ConfigError::EmptyRpcUrl);
        }
        if signing_key.as_str().is_empty() {
            return Err(ConfigError::EmptySigningKey);
        }
        if contract_address.len() != 20 {
            return Err(ConfigError::BadAddressLength { got: contract_address.len() });
        }
        if loop_delay_mins == 0 {
            return Err(ConfigError::ZeroLoopDelay);
        }
        Ok(OperatorConfig { rpc_url, signing_key, contract_address, loop_delay_mins, backend })
    }
}

/// Validated economic parameters for a marketplace proving request.
pub struct MarketOfferConfig {
    /// Stake a prover posts when locking the request, in wei.
    pub lock_stake_wei: u128,
    /// Price floor per million cycles, in wei.
    pub min_price_per_mcycle_wei: u128,
    /// Price ceiling per million cycles, in wei.
    pub max_price_per_mcycle_wei: u128,
    /// Blocks over which the offered price ramps from floor to ceiling.
    pub ramp_up_blocks: u64,
    /// Blocks the request may stay unfulfilled before it expires.
    pub timeout_blocks: u64,
    /// Blocks a prover may hold the lock before it can be slashed.
    pub lock_timeout_blocks: u64,
}

impl MarketOfferConfig {
    /// What a validated offer configuration guarantees.
    pub open spec fn wf(self) -> bool {
        &&& self.min_price_per_mcycle_wei <= self.max_price_per_mcycle_wei
        &&& self.timeout_blocks >= 1
    }

    /// Validates raw auction parameters.
    ///
    /// Accepts exactly the inputs whose price floor does not exceed the
    /// ceiling and whose fulfillment window is positive.
    pub fn new(
        lock_stake_wei: u128,
        min_price_per_mcycle_wei: u128,
        max_price_per_mcycle_wei: u128,
        ramp_up_blocks: u64,
        timeout_blocks: u64,
        lock_timeout_blocks: u64,
    ) -> (r: Result<MarketOfferConfig, ConfigError>)
        ensures
            r is Ok <==> {
                &&& min_price_per_mcycle_wei <= max_price_per_mcycle_wei
                &&& timeout_blocks >= 1
            },
            r matches Ok(c) ==> {
                &&& c.lock_stake_wei == lock_stake_wei
                &&& c.min_price_per_mcycle_wei == min_price_per_mcycle_wei
                &&& c.max_price_per_mcycle_wei == max_price_per_mcycle_wei
                &&& c.ramp_up_blocks == ramp_up_blocks
                &&& c.timeout_blocks == timeout_blocks
                &&& c.lock_timeout_blocks == lock_timeout_blocks
                &&& c.wf()
            },
            r matches Err(e) ==> match e {
                ConfigError::PriceBoundsInverted { min, max } => min
                    == min_price_per_mcycle_wei && max == max_price_per_mcycle_wei && min > max,
                ConfigError::ZeroTimeout => timeout_blocks == 0
                    && min_price_per_mcycle_wei <= max_price_per_mcycle_wei,
                _ => false,
            },
    {
        if min_price_per_mcycle_wei > max_price_per_mcycle_wei {
            return Err(ConfigError::PriceBoundsInverted {
                min: min_price_per_mcycle_wei,
                max: max_price_per_mcycle_wei,
            });
        }
        if timeout_blocks == 0 {
            return Err(ConfigError::ZeroTimeout);
        }
        Ok(MarketOfferConfig {
            lock_stake_wei,
            min_price_per_mcycle_wei,
            max_price_per_mcycle_wei,
            ramp_up_blocks,
            timeout_blocks,
            lock_timeout_blocks,
        })
    }
}

/// Arguments for reading genesis parameters from a block: the slot to read
/// from, or the latest checkpoint when absent.
pub struct GenesisArgs {
    pub slot: Option<u64>,
}

} // verus!
