use vstd::prelude::*;

use crate::biguint::BigUint;
use crate::bytes::{all_zero, bytes_eq, bytes_to_vec};
use crate::config::{check_config, config_valid, spec_default_config, ConfigView, DcdtSafeConfig, LibCommon};
use crate::drt_dcdt_safe::{chosen_config, opt_config_view, outcome};
use crate::errors::BridgeError;
use crate::execute_common::ExecuteCommonModule;
use crate::storage::{fresh_storage, CrossChainStorage, StorageView};
use crate::store::store_write;
use crate::utils::require_sc_address;

verus! {

/// The safe contract on a sovereign chain: it takes the tokens bridged out to the main chain.
pub struct SovDcdtSafe {
    owner: Vec<u8>,
    paused: bool,
    storage: CrossChainStorage,
}

/// The state of a sovereign-chain safe.
pub struct SovSafeView {
    pub owner: Seq<u8>,
    pub paused: bool,
    pub storage: StorageView,
}

impl View for SovDcdtSafe {
    type V = SovSafeView;

    closed spec fn view(&self) -> SovSafeView {
        SovSafeView { owner: self.owner@, paused: self.paused, storage: self.storage@ }
    }
}

/// Why `init` of a sovereign-chain safe refuses, if it does.
pub open spec fn sov_init_refusal(
    fee_market_address: Seq<u8>,
    fee_market_is_sc: bool,
    opt_config: Option<ConfigView>,
) -> Option<BridgeError> {
    if all_zero(fee_market_address) || !fee_market_is_sc {
        Some(BridgeError::InvalidScAddress)
    } else if !config_valid(chosen_config(opt_config)) {
        Some(BridgeError::MaxGasLimitPerTxExceeded)
    } else {
        None
    }
}

/// The state right after `init` of a sovereign-chain safe.
pub open spec fn sov_initial_state(
    fee_market_address: Seq<u8>,
    opt_config: Option<ConfigView>,
    deployer: Seq<u8>,
) -> SovSafeView {
    SovSafeView {
        owner: deployer,
        paused: true,
        storage: StorageView {
            fee_market_address: Some(fee_market_address),
            ..fresh_storage(chosen_config(opt_config))
        },
    }
}

/// Why an owner-only configuration update is refused, if it is.
pub open spec fn sov_update_configuration_refusal(
    s: SovSafeView,
    caller: Seq<u8>,
    new_config: ConfigView,
) -> Option<BridgeError> {
    if caller != s.owner {
        Some(BridgeError::OnlyOwner)
    } else if !config_valid(new_config) {
        Some(BridgeError::MaxGasLimitPerTxExceeded)
    } else {
        None
    }
}

/// Why an owner-only fee market update is refused, if it is.
pub open spec fn sov_set_fee_market_refusal(
    s: SovSafeView,
    caller: Seq<u8>,
    address: Seq<u8>,
    is_sc: bool,
) -> Option<BridgeError> {
    if caller != s.owner {
        Some(BridgeError::OnlyOwner)
    } else if all_zero(address) || !is_sc {
        Some(BridgeError::InvalidScAddress)
    } else {
        None
    }
}

impl SovDcdtSafe {
    /// Well-formedness: the storage areas are well formed and the configuration is one
    /// that the contract accepts.
    pub closed spec fn wf(&self) -> bool {
        &&& self.storage.wf()
        &&& config_valid(self.storage.dcdt_safe_config@)
    }

    /// In every well-formed state the stored configuration is valid.
    pub proof fn lemma_wf_config_valid(&self)
        requires
            self.wf(),
        ensures
            config_valid(self@.storage.config),
    {
    }

    /// Deploys the contract: stores the fee market, makes the deployer owner, stores the
    /// given configuration (or the default one) and pauses the contract. `fee_market_is_sc`
    /// is the chain's report on whether the fee market address is a smart contract.
    pub fn init(
        fee_market_address: Vec<u8>,
        opt_config: Option<DcdtSafeConfig>,
        deployer: &[u8],
        fee_market_is_sc: bool,
    ) -> (r: Result<SovDcdtSafe, BridgeError>)
        ensures
            r matches Ok(safe) ==> (opt_config matches Some(c) ==> safe@.storage.config == c@),
            r matches Ok(safe) ==> (opt_config is None ==> safe@.storage.config
                == spec_default_config()),
            match r {
                Ok(safe) => {
                    &&& sov_init_refusal(
                        fee_market_address@,
                        fee_market_is_sc,
                        opt_config_view(opt_config),
                    ) is None
                    &&& safe.wf()
                    &&& safe@ == sov_initial_state(
                        fee_market_address@,
                        opt_config_view(opt_config),
                        deployer@,
                    )
                },
                Err(e) => sov_init_refusal(
                    fee_market_address@,
                    fee_market_is_sc,
                    opt_config_view(opt_config),
                ) == Some(e),
            },
    {
        require_sc_address(fee_market_address.as_slice(), fee_market_is_sc)?;
        let config = match opt_config {
            Some(c) => {
                check_config(&c)?;
                c
            },
            None => DcdtSafeConfig::default_config(),
        };
        let mut storage = CrossChainStorage::new(config);
        storage.fee_market_address = Some(fee_market_address);
        let safe = SovDcdtSafe { owner: bytes_to_vec(deployer), paused: true, storage };
        assert(safe@.storage =~= sov_initial_state(
            fee_market_address@,
            opt_config_view(opt_config),
            deployer@,
        ).storage);
        Ok(safe)
    }

    /// The owner of the contract.
    pub fn owner(&self) -> (r: &Vec<u8>)
        ensures
            r@ == self@.owner,
    {
        &self.owner
    }

    /// Whether the contract is paused.
    pub fn is_paused(&self) -> (r: bool)
        ensures
            r == self@.paused,
    {
        self.paused
    }

    /// Refuses a caller who is not the owner.
    pub fn check_caller_is_owner(&self, caller: &[u8]) -> (r: Result<(), BridgeError>)
        ensures
            r is Ok <==> caller@ == self@.owner,
            r is Err ==> r == Err::<(), BridgeError>(BridgeError::OnlyOwner),
    {
        if bytes_eq(caller, self.owner.as_slice()) {
            Ok(())
        } else {
            Err(BridgeError::OnlyOwner)
        }
    }

    /// Owner-only: replaces the configuration with a valid one.
    pub fn update_configuration(&mut self, caller: &[u8], new_config: DcdtSafeConfig) -> (r: Result<
        (),
        BridgeError,
    >)
        requires
            old(self).wf(),
        ensures
            final(self).wf(),
            r == outcome(sov_update_configuration_refusal(old(self)@, caller@, new_config@)),
            r is Ok ==> final(self)@ == (SovSafeView {
                storage: StorageView { config: new_config@, ..old(self)@.storage },
                ..old(self)@
            }),
            r is Err ==> final(self)@ == old(self)@,
    {
        self.check_caller_is_owner(caller)?;
        self.require_dcdt_config_valid(&new_config)?;
        self.storage.dcdt_safe_config = new_config;
        Ok(())
    }

    /// Owner-only: stores the fee market address, which must be a smart contract
    /// (`is_sc` is the chain's report on it).
    pub fn set_fee_market_address(&mut self, caller: &[u8], fee_market_address: Vec<u8>, is_sc: bool) -> (r:
        Result<(), BridgeError>)
        requires
            old(self).wf(),
        ensures
            final(self).wf(),
            r == outcome(
                sov_set_fee_market_refusal(old(self)@, caller@, fee_market_address@, is_sc),
            ),
            caller@ == old(self)@.owner && !all_zero(fee_market_address@) && is_sc ==> r is Ok,
            r is Ok ==> final(self)@ == (SovSafeView {
                storage: StorageView {
                    fee_market_address: Some(fee_market_address@),
                    ..old(self)@.storage
                },
                ..old(self)@
            }),
            r is Err ==> final(self)@ == old(self)@,
    {
        self.check_caller_is_owner(caller)?;
        require_sc_address(fee_market_address.as_slice(), is_sc)?;
        self.storage.fee_market_address = Some(fee_market_address);
        Ok(())
    }

    /// Owner-only: stores the most that may be bridged of `token_id` (zero clears it).
    pub fn set_max_bridged_amount(&mut self, caller: &[u8], token_id: &[u8], max_amount: &BigUint) -> (r:
        Result<(), BridgeError>)
        requires
            old(self).wf(),
        ensures
            final(self).wf(),
            r is Ok <==> caller@ == old(self)@.owner,
            r is Err ==> r == Err::<(), BridgeError>(BridgeError::OnlyOwner) && final(self)@ == old(
                self,
            )@,
            r is Ok ==> final(self)@ == (SovSafeView {
                storage: StorageView {
                    max_bridged_amount: store_write(
                        old(self)@.storage.max_bridged_amount,
                        token_id@,
                        max_amount.magnitude(),
                    ),
                    ..old(self)@.storage
                },
                ..old(self)@
            }),
    {
        self.check_caller_is_owner(caller)?;
        self.storage.max_bridged_amount.set(token_id, max_amount.to_be_bytes());
        Ok(())
    }

    /// Upgrade hook: changes nothing.
    pub fn upgrade(&mut self)
        ensures
            final(self)@ == old(self)@,
    {
    }

    /// Owner-only: pauses the contract.
    pub fn pause_endpoint(&mut self, caller: &[u8]) -> (r: Result<(), BridgeError>)
        requires
            old(self).wf(),
        ensures
            final(self).wf(),
            r is Ok <==> caller@ == old(self)@.owner,
            r is Ok ==> final(self)@ == (SovSafeView { paused: true, ..old(self)@ }),
            r is Err ==> r == Err::<(), BridgeError>(BridgeError::OnlyOwner) && final(self)@ == old(
                self,
            )@,
    {
        self.check_caller_is_owner(caller)?;
        self.paused = true;
        Ok(())
    }

    /// Owner-only: unpauses the contract.
    pub fn unpause_endpoint(&mut self, caller: &[u8]) -> (r: Result<(), BridgeError>)
        requires
            old(self).wf(),
        ensures
            final(self).wf(),
            r is Ok <==> caller@ == old(self)@.owner,
            r is Ok ==> final(self)@ == (SovSafeView { paused: false, ..old(self)@ }),
            r is Err ==> r == Err::<(), BridgeError>(BridgeError::OnlyOwner) && final(self)@ == old(
                self,
            )@,
    {
        self.check_caller_is_owner(caller)?;
        self.paused = false;
        Ok(())
    }
}

impl ExecuteCommonModule for SovDcdtSafe {
    open spec fn storage_wf(&self) -> bool {
        self.wf()
    }

    open spec fn storage_view(&self) -> StorageView {
        self@.storage
    }

    fn cross_chain_storage(&self) -> (s: &CrossChainStorage) {
        &self.storage
    }
}

impl LibCommon for SovDcdtSafe {

}

} // verus!
