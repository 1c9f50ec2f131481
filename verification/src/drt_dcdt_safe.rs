use vstd::prelude::*;

use crate::biguint::BigUint;
use crate::bytes::{all_zero, bytes_eq, bytes_to_vec};
use crate::config::{
    check_config, config_valid, spec_default_config, ConfigView, DcdtSafeConfig, LibCommon,
};
use crate::errors::BridgeError;
use crate::execute_common::ExecuteCommonModule;
use crate::register_token::{with_corresponding_token_ids, with_dcdt_info, with_native_token};
use crate::storage::{fresh_storage, CrossChainStorage, StorageView};
use crate::store::{store_write, stored_or_empty, AddressSet, DcdtInfo};
use crate::utils::require_sc_address;

verus! {

/// The safe contract on the main chain: it locks or burns tokens bridged out and
/// registers the tokens that come in from a sovereign chain.
pub struct DrtDcdtSafe {
    owner: Vec<u8>,
    admins: AddressSet,
    paused: bool,
    storage: CrossChainStorage,
}

/// The state of a main-chain safe.
pub struct DrtSafeView {
    pub owner: Seq<u8>,
    pub admins: Set<Seq<u8>>,
    pub paused: bool,
    pub storage: StorageView,
}

impl View for DrtDcdtSafe {
    type V = DrtSafeView;

    closed spec fn view(&self) -> DrtSafeView {
        DrtSafeView {
            owner: self.owner@,
            admins: self.admins@,
            paused: self.paused,
            storage: self.storage@,
        }
    }
}

/// The configuration that `init` stores: the one given, or the default.
pub open spec fn chosen_config(opt_config: Option<ConfigView>) -> ConfigView {
    match opt_config {
        Some(c) => c,
        None => spec_default_config(),
    }
}

/// The contents of an optional configuration.
pub open spec fn opt_config_view(opt_config: Option<DcdtSafeConfig>) -> Option<ConfigView> {
    match opt_config {
        Some(c) => Some(c@),
        None => None,
    }
}

/// Why `init` of a main-chain safe refuses, if it does.
pub open spec fn drt_init_refusal(
    header_verifier_address: Seq<u8>,
    header_verifier_is_sc: bool,
    opt_config: Option<ConfigView>,
) -> Option<BridgeError> {
    if all_zero(header_verifier_address) || !header_verifier_is_sc {
        Some(BridgeError::InvalidScAddress)
    } else if !config_valid(chosen_config(opt_config)) {
        Some(BridgeError::MaxGasLimitPerTxExceeded)
    } else {
        None
    }
}

/// The state right after `init` of a main-chain safe.
pub open spec fn drt_initial_state(
    header_verifier_address: Seq<u8>,
    opt_config: Option<ConfigView>,
    deployer: Seq<u8>,
) -> DrtSafeView {
    DrtSafeView {
        owner: deployer,
        admins: Set::empty().insert(deployer),
        paused: true,
        storage: StorageView {
            header_verifier_address: Some(header_verifier_address),
            ..fresh_storage(chosen_config(opt_config))
        },
    }
}

/// Why an admin-only configuration update is refused, if it is.
pub open spec fn drt_update_configuration_refusal(
    s: DrtSafeView,
    caller: Seq<u8>,
    new_config: ConfigView,
) -> Option<BridgeError> {
    if !s.admins.contains(caller) {
        Some(BridgeError::OnlyAdmin)
    } else if !config_valid(new_config) {
        Some(BridgeError::MaxGasLimitPerTxExceeded)
    } else {
        None
    }
}

/// Why an admin-only fee market update is refused, if it is.
pub open spec fn drt_set_fee_market_refusal(
    s: DrtSafeView,
    caller: Seq<u8>,
    address: Seq<u8>,
    is_sc: bool,
) -> Option<BridgeError> {
    if !s.admins.contains(caller) {
        Some(BridgeError::OnlyAdmin)
    } else if all_zero(address) || !is_sc {
        Some(BridgeError::InvalidScAddress)
    } else {
        None
    }
}

/// The result that a refusal, or its absence, gives.
pub open spec fn outcome(refusal: Option<BridgeError>) -> Result<(), BridgeError> {
    match refusal {
        Some(e) => Err(e),
        None => Ok(()),
    }
}

impl DrtDcdtSafe {
    /// Well-formedness: the storage areas are well formed and the configuration is one
    /// that the contract accepts.
    pub closed spec fn wf(&self) -> bool {
        &&& self.admins.wf()
        &&& self.storage.wf()
        &&& config_valid(self.storage.dcdt_safe_config@)
    }

    /// In every well-formed state the stored configuration is valid.
    pub proof fn lemma_wf_config_valid(&self)
        requires
            self.wf(),
        ensures
            config_valid(self@.storage.config),
    {
    }

    /// Deploys the contract: stores the header verifier, makes the deployer owner and
    /// admin, stores the given configuration (or the default one) and pauses the contract.
    /// `header_verifier_is_sc` is the chain's report on whether the header verifier address
    /// is a smart contract.
    pub fn init(
        header_verifier_address: Vec<u8>,
        opt_config: Option<DcdtSafeConfig>,
        deployer: &[u8],
        header_verifier_is_sc: bool,
    ) -> (r: Result<DrtDcdtSafe, BridgeError>)
        ensures
            r matches Ok(safe) ==> (opt_config matches Some(c) ==> safe@.storage.config == c@),
            r matches Ok(safe) ==> (opt_config is None ==> safe@.storage.config
                == spec_default_config()),
            match r {
                Ok(safe) => {
                    &&& drt_init_refusal(
                        header_verifier_address@,
                        header_verifier_is_sc,
                        opt_config_view(opt_config),
                    ) is None
                    &&& safe.wf()
                    &&& safe@ == drt_initial_state(
                        header_verifier_address@,
                        opt_config_view(opt_config),
                        deployer@,
                    )
                },
                Err(e) => drt_init_refusal(
                    header_verifier_address@,
                    header_verifier_is_sc,
                    opt_config_view(opt_config),
                ) == Some(e),
            },
    {
        require_sc_address(header_verifier_address.as_slice(), header_verifier_is_sc)?;
        let mut admins = AddressSet::new();
        admins.insert(deployer);
        let config = match opt_config {
            Some(c) => {
                check_config(&c)?;
                c
            },
            None => DcdtSafeConfig::default_config(),
        };
        let mut storage = CrossChainStorage::new(config);
        storage.header_verifier_address = Some(header_verifier_address);
        let safe = DrtDcdtSafe { owner: bytes_to_vec(deployer), admins, paused: true, storage };
        assert(safe@.storage =~= drt_initial_state(
            header_verifier_address@,
            opt_config_view(opt_config),
            deployer@,
        ).storage);
        Ok(safe)
    }

    /// The owner of the contract.
    pub fn owner(&self) -> (r: &Vec<u8>)
        ensures
            r@ == self@.owner,
    {
        &self.owner
    }

    /// Whether `address` is an admin.
    pub fn is_admin(&self, address: &[u8]) -> (r: bool)
        requires
            self.wf(),
        ensures
            r == self@.admins.contains(address@),
    {
        self.admins.contains(address)
    }

    /// Whether the contract is paused.
    pub fn is_paused(&self) -> (r: bool)
        ensures
            r == self@.paused,
    {
        self.paused
    }

    /// Refuses a caller who is not an admin.
    pub fn require_caller_is_admin(&self, caller: &[u8]) -> (r: Result<(), BridgeError>)
        requires
            self.wf(),
        ensures
            r is Ok <==> self@.admins.contains(caller@),
            r is Err ==> r == Err::<(), BridgeError>(BridgeError::OnlyAdmin),
    {
        if self.admins.contains(caller) {
            Ok(())
        } else {
            Err(BridgeError::OnlyAdmin)
        }
    }

    /// Refuses a caller who is not the owner.
    pub fn check_caller_is_owner(&self, caller: &[u8]) -> (r: Result<(), BridgeError>)
        ensures
            r is Ok <==> caller@ == self@.owner,
            r is Err ==> r == Err::<(), BridgeError>(BridgeError::OnlyOwner),
    {
        if bytes_eq(caller, self.owner.as_slice()) {
            Ok(())
        } else {
            Err(BridgeError::OnlyOwner)
        }
    }

    /// Admin-only: replaces the configuration with a valid one.
    pub fn update_configuration(&mut self, caller: &[u8], new_config: DcdtSafeConfig) -> (r: Result<
        (),
        BridgeError,
    >)
        requires
            old(self).wf(),
        ensures
            final(self).wf(),
            r == outcome(drt_update_configuration_refusal(old(self)@, caller@, new_config@)),
            r is Ok ==> final(self)@ == (DrtSafeView {
                storage: StorageView { config: new_config@, ..old(self)@.storage },
                ..old(self)@
            }),
            r is Err ==> final(self)@ == old(self)@,
    {
        self.require_caller_is_admin(caller)?;
        self.require_dcdt_config_valid(&new_config)?;
        self.storage.dcdt_safe_config = new_config;
        Ok(())
    }

    /// Admin-only: stores the fee market address, which must be a smart contract
    /// (`is_sc` is the chain's report on it).
    pub fn set_fee_market_address(&mut self, caller: &[u8], fee_market_address: Vec<u8>, is_sc: bool) -> (r:
        Result<(), BridgeError>)
        requires
            old(self).wf(),
        ensures
            final(self).wf(),
            r == outcome(
                drt_set_fee_market_refusal(old(self)@, caller@, fee_market_address@, is_sc),
            ),
            old(self)@.admins.contains(caller@) && !all_zero(fee_market_address@) && is_sc ==> r is Ok,
            r is Ok ==> final(self)@ == (DrtSafeView {
                storage: StorageView {
                    fee_market_address: Some(fee_market_address@),
                    ..old(self)@.storage
                },
                ..old(self)@
            }),
            r is Err ==> final(self)@ == old(self)@,
    {
        self.require_caller_is_admin(caller)?;
        require_sc_address(fee_market_address.as_slice(), is_sc)?;
        self.storage.fee_market_address = Some(fee_market_address);
        Ok(())
    }

    /// Admin-only: stores the most that may be bridged of `token_id` (zero clears it).
    pub fn set_max_bridged_amount(&mut self, caller: &[u8], token_id: &[u8], max_amount: &BigUint) -> (r:
        Result<(), BridgeError>)
        requires
            old(self).wf(),
        ensures
            final(self).wf(),
            r is Ok <==> old(self)@.admins.contains(caller@),
            r is Err ==> r == Err::<(), BridgeError>(BridgeError::OnlyAdmin) && final(self)@ == old(
                self,
            )@,
            r is Ok ==> final(self)@ == (DrtSafeView {
                storage: StorageView {
                    max_bridged_amount: store_write(
                        old(self)@.storage.max_bridged_amount,
                        token_id@,
                        max_amount.magnitude(),
                    ),
                    ..old(self)@.storage
                },
                ..old(self)@
            }),
    {
        self.require_caller_is_admin(caller)?;
        self.storage.max_bridged_amount.set(token_id, max_amount.to_be_bytes());
        Ok(())
    }

    /// Records `drt_token_id` as the counterpart of `sov_token_id` in both directions.
    pub(crate) fn set_token_id_pair(&mut self, sov_token_id: &[u8], drt_token_id: &[u8])
        requires
            old(self).wf(),
        ensures
            final(self).wf(),
            final(self)@ == (DrtSafeView {
                storage: with_corresponding_token_ids(
                    old(self)@.storage,
                    sov_token_id@,
                    drt_token_id@,
                ),
                ..old(self)@
            }),
            forall|k: Seq<u8>|
                k != sov_token_id@ ==> #[trigger] stored_or_empty(
                    final(self)@.storage.sov_to_drt_token_id,
                    k,
                ) == stored_or_empty(old(self)@.storage.sov_to_drt_token_id, k),
            forall|k: Seq<u8>|
                k != drt_token_id@ ==> #[trigger] stored_or_empty(
                    final(self)@.storage.drt_to_sov_token_id,
                    k,
                ) == stored_or_empty(old(self)@.storage.drt_to_sov_token_id, k),
    {
        self.storage.sovereign_to_dharitri_token_id.set(sov_token_id, bytes_to_vec(drt_token_id));
        self.storage.dharitri_to_sovereign_token_id.set(drt_token_id, bytes_to_vec(sov_token_id));
    }

    /// Records that `(drt_id, new_nft_nonce)` stands for `(sov_id, sov_nonce)`, both ways.
    pub(crate) fn set_dcdt_info_pair(
        &mut self,
        sov_id: &[u8],
        sov_nonce: u64,
        drt_id: &[u8],
        new_nft_nonce: u64,
    )
        requires
            old(self).wf(),
        ensures
            final(self).wf(),
            final(self)@ == (DrtSafeView {
                storage: with_dcdt_info(old(self)@.storage, sov_id@, sov_nonce, drt_id@, new_nft_nonce),
                ..old(self)@
            }),
            forall|k: (Seq<u8>, u64)|
                k != (sov_id@, sov_nonce) ==> #[trigger] final(self)@.storage.sov_to_drt_info.contains_key(k)
                    == old(self)@.storage.sov_to_drt_info.contains_key(k) && (old(
                    self,
                )@.storage.sov_to_drt_info.contains_key(k) ==> final(self)@.storage.sov_to_drt_info[k]
                    == old(self)@.storage.sov_to_drt_info[k]),
            forall|k: (Seq<u8>, u64)|
                k != (drt_id@, new_nft_nonce) ==> #[trigger] final(self)@.storage.drt_to_sov_info.contains_key(k)
                    == old(self)@.storage.drt_to_sov_info.contains_key(k) && (old(
                    self,
                )@.storage.drt_to_sov_info.contains_key(k) ==> final(self)@.storage.drt_to_sov_info[k]
                    == old(self)@.storage.drt_to_sov_info[k]),
    {
        self.storage.sovereign_to_dharitri_dcdt_info.set(
            sov_id,
            sov_nonce,
            DcdtInfo { token_identifier: bytes_to_vec(drt_id), token_nonce: new_nft_nonce },
        );
        self.storage.dharitri_to_sovereign_dcdt_info.set(
            drt_id,
            new_nft_nonce,
            DcdtInfo { token_identifier: bytes_to_vec(sov_id), token_nonce: sov_nonce },
        );
    }

    /// Writes the native token.
    pub(crate) fn set_native_token(&mut self, token: Vec<u8>)
        requires
            old(self).wf(),
        ensures
            final(self).wf(),
            final(self)@ == (DrtSafeView {
                storage: with_native_token(old(self)@.storage, token@),
                ..old(self)@
            }),
    {
        self.storage.native_token = token;
    }

    /// Upgrade hook: changes nothing.
    pub fn upgrade(&mut self)
        ensures
            final(self)@ == old(self)@,
    {
    }

    /// Owner-only: pauses the contract.
    pub fn pause_endpoint(&mut self, caller: &[u8]) -> (r: Result<(), BridgeError>)
        requires
            old(self).wf(),
        ensures
            final(self).wf(),
            r is Ok <==> caller@ == old(self)@.owner,
            r is Ok ==> final(self)@ == (DrtSafeView { paused: true, ..old(self)@ }),
            r is Err ==> r == Err::<(), BridgeError>(BridgeError::OnlyOwner) && final(self)@ == old(
                self,
            )@,
    {
        self.check_caller_is_owner(caller)?;
        self.paused = true;
        Ok(())
    }

    /// Owner-only: unpauses the contract.
    pub fn unpause_endpoint(&mut self, caller: &[u8]) -> (r: Result<(), BridgeError>)
        requires
            old(self).wf(),
        ensures
            final(self).wf(),
            r is Ok <==> caller@ == old(self)@.owner,
            r is Ok ==> final(self)@ == (DrtSafeView { paused: false, ..old(self)@ }),
            r is Err ==> r == Err::<(), BridgeError>(BridgeError::OnlyOwner) && final(self)@ == old(
                self,
            )@,
    {
        self.check_caller_is_owner(caller)?;
        self.paused = false;
        Ok(())
    }

    /// Owner-only: makes `address` an admin.
    pub fn add_admin(&mut self, caller: &[u8], address: &[u8]) -> (r: Result<(), BridgeError>)
        requires
            old(self).wf(),
        ensures
            final(self).wf(),
            r is Ok <==> caller@ == old(self)@.owner,
            r is Ok ==> final(self)@ == (DrtSafeView {
                admins: old(self)@.admins.insert(address@),
                ..old(self)@
            }),
            r is Err ==> r == Err::<(), BridgeError>(BridgeError::OnlyOwner) && final(self)@ == old(
                self,
            )@,
    {
        self.check_caller_is_owner(caller)?;
        self.admins.insert(address);
        Ok(())
    }

    /// Owner-only: removes `address` from the admins.
    pub fn remove_admin(&mut self, caller: &[u8], address: &[u8]) -> (r: Result<(), BridgeError>)
        requires
            old(self).wf(),
        ensures
            final(self).wf(),
            r is Ok <==> caller@ == old(self)@.owner,
            r is Ok ==> final(self)@ == (DrtSafeView {
                admins: old(self)@.admins.remove(address@),
                ..old(self)@
            }),
            r is Err ==> r == Err::<(), BridgeError>(BridgeError::OnlyOwner) && final(self)@ == old(
                self,
            )@,
    {
        self.check_caller_is_owner(caller)?;
        self.admins.remove(address);
        Ok(())
    }
}

impl ExecuteCommonModule for DrtDcdtSafe {
    open spec fn storage_wf(&self) -> bool {
        self.wf()
    }

    open spec fn storage_view(&self) -> StorageView {
        self@.storage
    }

    fn cross_chain_storage(&self) -> (s: &CrossChainStorage) {
        &self.storage
    }
}

impl LibCommon for DrtDcdtSafe {

}

} // verus!
