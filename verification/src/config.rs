use vstd::prelude::*;

use crate::errors::BridgeError;

verus! {

/// Most token transfers that one transaction may carry.
pub const MAX_TRANSFERS_PER_TX: usize = 10;

/// Cost of issuing a token, in the smallest unit of REWA (0.05 REWA).
pub const DEFAULT_ISSUE_COST: u64 = 50_000_000_000_000_000;

/// Gas given to a token issue call.
pub const REGISTER_GAS: u64 = 60_000_000;

/// Gas limit of one transaction on the chain; a configuration must stay below it.
pub const MAX_GAS_PER_TRANSACTION: u64 = 600_000_000;

/// Gas limit per transaction of the default configuration.
pub const DEFAULT_MAX_TX_GAS_LIMIT: u64 = 300_000_000;

/// Configuration of a safe contract.
pub struct DcdtSafeConfig {
    pub token_whitelist: Vec<Vec<u8>>,
    pub token_blacklist: Vec<Vec<u8>>,
    pub max_tx_gas_limit: u64,
    pub banned_endpoints: Vec<Vec<u8>>,
}

/// The contents of a configuration.
pub struct ConfigView {
    pub token_whitelist: Seq<Seq<u8>>,
    pub token_blacklist: Seq<Seq<u8>>,
    pub max_tx_gas_limit: u64,
    pub banned_endpoints: Seq<Seq<u8>>,
}

impl View for DcdtSafeConfig {
    type V = ConfigView;

    open spec fn view(&self) -> ConfigView {
        ConfigView {
            token_whitelist: self.token_whitelist.deep_view(),
            token_blacklist: self.token_blacklist.deep_view(),
            max_tx_gas_limit: self.max_tx_gas_limit,
            banned_endpoints: self.banned_endpoints.deep_view(),
        }
    }
}

/// A configuration that a safe contract accepts.
pub open spec fn config_valid(c: ConfigView) -> bool {
    c.max_tx_gas_limit < MAX_GAS_PER_TRANSACTION
}

/// The configuration used when none is given.
pub open spec fn spec_default_config() -> ConfigView {
    ConfigView {
        token_whitelist: Seq::empty(),
        token_blacklist: Seq::empty(),
        max_tx_gas_limit: DEFAULT_MAX_TX_GAS_LIMIT,
        banned_endpoints: Seq::empty(),
    }
}

impl DcdtSafeConfig {
    /// A configuration from its parts.
    pub fn new(
        token_whitelist: Vec<Vec<u8>>,
        token_blacklist: Vec<Vec<u8>>,
        max_tx_gas_limit: u64,
        banned_endpoints: Vec<Vec<u8>>,
    ) -> (r: DcdtSafeConfig)
        ensures
            r.token_whitelist == token_whitelist,
            r.token_blacklist == token_blacklist,
            r.max_tx_gas_limit == max_tx_gas_limit,
            r.banned_endpoints == banned_endpoints,
    {
        DcdtSafeConfig { token_whitelist, token_blacklist, max_tx_gas_limit, banned_endpoints }
    }

    /// The default configuration: no lists, the default gas limit.
    pub fn default_config() -> (r: DcdtSafeConfig)
        ensures
            r@ == spec_default_config(),
            config_valid(r@),
    {
        let r = DcdtSafeConfig {
            token_whitelist: Vec::new(),
            token_blacklist: Vec::new(),
            max_tx_gas_limit: DEFAULT_MAX_TX_GAS_LIMIT,
            banned_endpoints: Vec::new(),
        };
        assert(r@.token_whitelist =~= Seq::<Seq<u8>>::empty());
        assert(r@.token_blacklist =~= Seq::<Seq<u8>>::empty());
        assert(r@.banned_endpoints =~= Seq::<Seq<u8>>::empty());
        r
    }
}

/// Accepts `config` exactly when its gas limit per transaction is below the chain's.
pub fn check_config(config: &DcdtSafeConfig) -> (r: Result<(), BridgeError>)
    ensures
        r is Ok <==> config_valid(config@),
        r is Err ==> r == Err::<(), BridgeError>(BridgeError::MaxGasLimitPerTxExceeded),
{
    if config.max_tx_gas_limit < MAX_GAS_PER_TRANSACTION {
        Ok(())
    } else {
        Err(BridgeError::MaxGasLimitPerTxExceeded)
    }
}

/// Checks that a configuration may be used by a safe contract.
pub trait LibCommon {
    /// Accepts `config` exactly when its gas limit per transaction is below the chain's.
    fn require_dcdt_config_valid(&self, config: &DcdtSafeConfig) -> (r: Result<(), BridgeError>)
        ensures
            r is Ok <==> config_valid(config@),
            r is Err ==> r == Err::<(), BridgeError>(BridgeError::MaxGasLimitPerTxExceeded),
    {
        check_config(config)
    }
}

} // verus!
