use vstd::prelude::*;

use crate::config::{config_valid, spec_default_config, ConfigView};
use crate::bytes::count_byte;
use crate::drt_dcdt_safe::{
    drt_init_refusal, drt_initial_state, drt_set_fee_market_refusal,
    drt_update_configuration_refusal,
};
use crate::errors::BridgeError;
use crate::register_token::{
    register_native_token_refusal, register_token_refusal, with_corresponding_token_ids,
    with_dcdt_info, with_native_token,
};
use crate::sov_dcdt_safe::{
    sov_init_refusal, sov_initial_state, sov_set_fee_market_refusal,
    sov_update_configuration_refusal,
};
use crate::storage::StorageView;
use crate::store::{no_empty_values, store_write, stored_or_empty};
use crate::token::{spec_is_fungible, spec_is_nft, spec_is_sft_or_meta, DcdtTokenType};

verus! {

/// Every token type but `Invalid` is exactly one of fungible, semi-fungible-or-meta and
/// non-fungible; `Invalid` is none of them.
pub proof fn law_token_kinds_partition(t: DcdtTokenType)
    ensures
        !(spec_is_fungible(t) && spec_is_sft_or_meta(t)),
        !(spec_is_fungible(t) && spec_is_nft(t)),
        !(spec_is_sft_or_meta(t) && spec_is_nft(t)),
        t != DcdtTokenType::Invalid <==> (spec_is_fungible(t) || spec_is_sft_or_meta(t)
            || spec_is_nft(t)),
{
}

/// A storage read gives back what the last write to the same key wrote (the empty value
/// included), and a write leaves every other key as it was and stores no empty value.
pub proof fn law_storage_read_after_write(
    m: Map<Seq<u8>, Seq<u8>>,
    key: Seq<u8>,
    value: Seq<u8>,
    other: Seq<u8>,
)
    requires
        no_empty_values(m),
    ensures
        stored_or_empty(store_write(m, key, value), key) == value,
        other != key ==> stored_or_empty(store_write(m, key, value), other) == stored_or_empty(
            m,
            other,
        ),
        no_empty_values(store_write(m, key, value)),
{
    let w = store_write(m, key, value);
    assert forall|k: Seq<u8>| #[trigger] w.contains_key(k) implies w[k].len() > 0 by {
        if k != key {
            assert(m.contains_key(k));
        }
    }
}

/// After a token is recorded as the counterpart of a sovereign token, each of the two maps
/// gives the other identifier back.
pub proof fn law_token_ids_map_both_ways(s: StorageView, sov_token_id: Seq<u8>, drt_token_id: Seq<u8>)
    ensures
        stored_or_empty(
            with_corresponding_token_ids(s, sov_token_id, drt_token_id).sov_to_drt_token_id,
            sov_token_id,
        ) == drt_token_id,
        stored_or_empty(
            with_corresponding_token_ids(s, sov_token_id, drt_token_id).drt_to_sov_token_id,
            drt_token_id,
        ) == sov_token_id,
{
}

/// Once a (non-empty) token has been recorded for a sovereign token, registering that
/// sovereign token again is refused as already registered, whatever the token type.
pub proof fn law_registered_token_is_refused(
    s: StorageView,
    sov_token_id: Seq<u8>,
    drt_token_id: Seq<u8>,
    token_type: DcdtTokenType,
)
    requires
        drt_token_id.len() > 0,
    ensures
        register_token_refusal(
            with_corresponding_token_ids(s, sov_token_id, drt_token_id),
            sov_token_id,
            token_type,
        ) == Some(BridgeError::TokenAlreadyRegistered),
{
}

/// Recording a token for a sovereign token touches only the two token-id maps.
pub proof fn law_token_ids_touch_nothing_else(
    s: StorageView,
    sov_token_id: Seq<u8>,
    drt_token_id: Seq<u8>,
)
    ensures
        ({
            let t = with_corresponding_token_ids(s, sov_token_id, drt_token_id);
            &&& t.config == s.config
            &&& t.native_token == s.native_token
            &&& t.header_verifier_address == s.header_verifier_address
            &&& t.fee_market_address == s.fee_market_address
            &&& t.sov_to_drt_info == s.sov_to_drt_info
            &&& t.drt_to_sov_info == s.drt_to_sov_info
            &&& t.max_bridged_amount == s.max_bridged_amount
        }),
{
}

/// After the native token is stored, it is recognised as native, and the owner's next
/// request to register a native token is refused as already registered (anyone else's as
/// not coming from the owner).
pub proof fn law_native_token_registered_once(
    owner: Seq<u8>,
    s: StorageView,
    native_token_id: Seq<u8>,
    caller: Seq<u8>,
)
    requires
        native_token_id.len() > 0,
    ensures
        ({
            let t = with_native_token(s, native_token_id);
            &&& t.native_token.len() > 0 && t.native_token == native_token_id
            &&& caller == owner ==> register_native_token_refusal(owner, t, caller) == Some(
                BridgeError::NativeTokenAlreadyRegistered,
            )
            &&& caller != owner ==> register_native_token_refusal(owner, t, caller) == Some(
                BridgeError::OnlyOwner,
            )
        }),
{
}

/// The token-and-nonce maps give each side back for the other.
pub proof fn law_dcdt_info_maps_both_ways(
    s: StorageView,
    sov_id: Seq<u8>,
    sov_nonce: u64,
    drt_id: Seq<u8>,
    new_nft_nonce: u64,
)
    ensures
        ({
            let t = with_dcdt_info(s, sov_id, sov_nonce, drt_id, new_nft_nonce);
            &&& t.sov_to_drt_info.contains_key((sov_id, sov_nonce))
            &&& t.sov_to_drt_info[(sov_id, sov_nonce)] == (drt_id, new_nft_nonce)
            &&& t.drt_to_sov_info.contains_key((drt_id, new_nft_nonce))
            &&& t.drt_to_sov_info[(drt_id, new_nft_nonce)] == (sov_id, sov_nonce)
        }),
{
}

/// The default configuration is accepted.
pub proof fn law_default_config_valid()
    ensures
        config_valid(spec_default_config()),
{
}

/// After `init` of a main-chain safe, operations are locked with the header verifier given
/// at deployment, the contract is paused, and the deployer, as admin, may replace the
/// configuration with any valid one.
pub proof fn law_drt_init_state(
    header_verifier_address: Seq<u8>,
    opt_config: Option<ConfigView>,
    deployer: Seq<u8>,
    new_config: ConfigView,
)
    ensures
        ({
            let s = drt_initial_state(header_verifier_address, opt_config, deployer);
            &&& s.storage.header_verifier_address == Some(header_verifier_address)
            &&& s.paused
            &&& s.admins.contains(deployer)
            &&& drt_update_configuration_refusal(s, deployer, new_config) is None <==> config_valid(
                new_config,
            )
        }),
{
}

/// After `init` of a sovereign-chain safe no header verifier is stored, so locking an
/// operation is refused; the contract is paused, and the deployer, as owner, may replace
/// the configuration with any valid one.
pub proof fn law_sov_init_state(
    fee_market_address: Seq<u8>,
    opt_config: Option<ConfigView>,
    deployer: Seq<u8>,
    new_config: ConfigView,
)
    ensures
        ({
            let s = sov_initial_state(fee_market_address, opt_config, deployer);
            &&& s.storage.header_verifier_address is None
            &&& s.storage.fee_market_address == Some(fee_market_address)
            &&& s.paused
            &&& sov_update_configuration_refusal(s, deployer, new_config) is None <==> config_valid(
                new_config,
            )
        }),
{
}

/// Registering a token is refused for the type only when the type is `Invalid`: a sovereign
/// token that has no counterpart yet and carries a chain prefix (exactly two dashes) is
/// accepted for every other type, and refused as `InvalidType` for `Invalid`.
pub proof fn law_register_token_type_refusal(
    s: StorageView,
    sov_token_id: Seq<u8>,
    token_type: DcdtTokenType,
)
    ensures
        register_token_refusal(s, sov_token_id, token_type) == Some(BridgeError::InvalidType)
            ==> token_type == DcdtTokenType::Invalid,
        !s.sov_to_drt_token_id.contains_key(sov_token_id) && count_byte(sov_token_id, 0x2du8) == 2
            ==> (register_token_refusal(s, sov_token_id, token_type) is None <==> token_type
            != DcdtTokenType::Invalid),
        !s.sov_to_drt_token_id.contains_key(sov_token_id) && count_byte(sov_token_id, 0x2du8) == 2
            && token_type == DcdtTokenType::Invalid ==> register_token_refusal(
            s,
            sov_token_id,
            token_type,
        ) == Some(BridgeError::InvalidType),
        s.sov_to_drt_token_id.contains_key(sov_token_id) ==> register_token_refusal(
            s,
            sov_token_id,
            token_type,
        ) == Some(BridgeError::TokenAlreadyRegistered),
        !s.sov_to_drt_token_id.contains_key(sov_token_id) && count_byte(sov_token_id, 0x2du8) != 2
            ==> register_token_refusal(s, sov_token_id, token_type) == Some(
            BridgeError::CannotRegisterToken,
        ),
{
}

/// Recording a token pair writes only the entry of that sovereign token and the entry of
/// that issued token: every other key of either map reads as before.
pub proof fn law_token_ids_other_keys_unchanged(
    s: StorageView,
    sov_token_id: Seq<u8>,
    drt_token_id: Seq<u8>,
    k: Seq<u8>,
)
    ensures
        k != sov_token_id ==> stored_or_empty(
            with_corresponding_token_ids(s, sov_token_id, drt_token_id).sov_to_drt_token_id,
            k,
        ) == stored_or_empty(s.sov_to_drt_token_id, k),
        k != drt_token_id ==> stored_or_empty(
            with_corresponding_token_ids(s, sov_token_id, drt_token_id).drt_to_sov_token_id,
            k,
        ) == stored_or_empty(s.drt_to_sov_token_id, k),
{
}

/// Recording a token-and-nonce pair writes only those two keys: every other key of either
/// map holds what it held before.
pub proof fn law_dcdt_info_other_keys_unchanged(
    s: StorageView,
    sov_id: Seq<u8>,
    sov_nonce: u64,
    drt_id: Seq<u8>,
    new_nft_nonce: u64,
    k: (Seq<u8>, u64),
)
    ensures
        ({
            let t = with_dcdt_info(s, sov_id, sov_nonce, drt_id, new_nft_nonce);
            &&& k != (sov_id, sov_nonce) ==> (t.sov_to_drt_info.contains_key(k)
                == s.sov_to_drt_info.contains_key(k) && (s.sov_to_drt_info.contains_key(k)
                ==> t.sov_to_drt_info[k] == s.sov_to_drt_info[k]))
            &&& k != (drt_id, new_nft_nonce) ==> (t.drt_to_sov_info.contains_key(k)
                == s.drt_to_sov_info.contains_key(k) && (s.drt_to_sov_info.contains_key(k)
                ==> t.drt_to_sov_info[k] == s.drt_to_sov_info[k]))
        }),
{
}

/// `init` stores the configuration it was given, and the default one only when none was
/// given; this holds for both safes.
pub proof fn law_init_stores_given_config(
    address: Seq<u8>,
    opt_config: Option<ConfigView>,
    deployer: Seq<u8>,
)
    ensures
        opt_config matches Some(c) ==> drt_initial_state(address, opt_config, deployer).storage.config
            == c,
        opt_config matches Some(c) ==> sov_initial_state(address, opt_config, deployer).storage.config
            == c,
        opt_config is None ==> drt_initial_state(address, opt_config, deployer).storage.config
            == spec_default_config(),
        opt_config is None ==> sov_initial_state(address, opt_config, deployer).storage.config
            == spec_default_config(),
{
}

/// An address with a non-zero byte that the chain reports as a smart contract passes the
/// address check: `init` with a valid configuration is accepted, and an authorised caller's
/// fee market update is accepted. A refusal for the address happens only for the all-zero
/// address or an address that is not a smart contract.
pub proof fn law_sc_address_accepted(
    drt: crate::drt_dcdt_safe::DrtSafeView,
    sov: crate::sov_dcdt_safe::SovSafeView,
    caller: Seq<u8>,
    address: Seq<u8>,
    is_sc: bool,
    opt_config: Option<ConfigView>,
    i: int,
)
    requires
        0 <= i < address.len(),
        address[i] != 0,
        is_sc,
    ensures
        drt.admins.contains(caller) ==> drt_set_fee_market_refusal(drt, caller, address, is_sc)
            is None,
        caller == sov.owner ==> sov_set_fee_market_refusal(sov, caller, address, is_sc) is None,
        drt_init_refusal(address, is_sc, opt_config) != Some(BridgeError::InvalidScAddress),
        sov_init_refusal(address, is_sc, opt_config) != Some(BridgeError::InvalidScAddress),
        opt_config is None ==> drt_init_refusal(address, is_sc, opt_config) is None,
        opt_config is None ==> sov_init_refusal(address, is_sc, opt_config) is None,
{
}

/// The address check refuses exactly the all-zero address and addresses that are not smart
/// contracts.
pub proof fn law_sc_address_refusal(
    drt: crate::drt_dcdt_safe::DrtSafeView,
    caller: Seq<u8>,
    address: Seq<u8>,
    is_sc: bool,
)
    requires
        drt.admins.contains(caller),
    ensures
        drt_set_fee_market_refusal(drt, caller, address, is_sc) == Some(
            BridgeError::InvalidScAddress,
        ) <==> (!is_sc || forall|j: int| 0 <= j < address.len() ==> address[j] == 0),
{
}

} // verus!
