use dcdt_safe::biguint::BigUint;
use dcdt_safe::config::{DcdtSafeConfig, LibCommon, DEFAULT_MAX_TX_GAS_LIMIT, MAX_GAS_PER_TRANSACTION, REGISTER_GAS};
use dcdt_safe::drt_dcdt_safe::DrtDcdtSafe;
use dcdt_safe::errors::BridgeError;
use dcdt_safe::execute_common::{ExecuteCommonModule, HeaderVerifierEndpoint};
use dcdt_safe::register_token::{AsyncCallError, IssueCallback, RegisterTokenModule, NATIVE_TOKEN_DECIMALS};
use dcdt_safe::sov_dcdt_safe::SovDcdtSafe;
use dcdt_safe::store::{AddressSet, ByteStore, InfoStore, DcdtInfo};
use dcdt_safe::testing_sc::TestingSc;
use dcdt_safe::token::DcdtTokenType;
use dcdt_safe::utils::{has_prefix, require_sc_address};

const SOV_TOKEN: &str = "sov-GREEN-0e161c";
const FIRST_TEST_TOKEN: &str = "GREEN-0e161c";

fn addr(b: u8) -> Vec<u8> {
    vec![b; 32]
}

fn owner() -> Vec<u8> {
    addr(1)
}

fn header_verifier() -> Vec<u8> {
    addr(2)
}

fn config(gas: u64) -> DcdtSafeConfig {
    DcdtSafeConfig::new(Vec::new(), Vec::new(), gas, Vec::new())
}

fn deployed_drt() -> DrtDcdtSafe {
    DrtDcdtSafe::init(header_verifier(), Some(config(50_000_000)), &owner(), true).unwrap()
}

fn biguint(n: u128) -> BigUint {
    BigUint::from_be_bytes(&n.to_be_bytes())
}

#[test]
fn biguint_drops_leading_zeros() {
    let b = BigUint::from_be_bytes(&[0, 0, 1, 2]);
    assert_eq!(b.to_be_bytes(), vec![1, 2]);
    assert!(!b.is_zero());
    let z = BigUint::from_be_bytes(&[0, 0, 0]);
    assert!(z.is_zero());
    assert_eq!(z.to_be_bytes(), Vec::<u8>::new());
    assert!(BigUint::zero().is_zero());
    assert_eq!(biguint(258).to_be_bytes(), vec![1, 2]);
    assert_eq!(biguint(258).copy().to_be_bytes(), vec![1, 2]);
}

#[test]
fn prefix_is_two_dashes() {
    assert!(has_prefix(SOV_TOKEN.as_bytes()));
    assert!(!has_prefix(FIRST_TEST_TOKEN.as_bytes()));
    assert!(!has_prefix(b"a-b-c-d"));
    assert!(!has_prefix(b""));
}

#[test]
fn sc_address_must_be_nonzero_contract() {
    assert_eq!(require_sc_address(&addr(0), true), Err(BridgeError::InvalidScAddress));
    assert_eq!(require_sc_address(&addr(3), false), Err(BridgeError::InvalidScAddress));
    assert_eq!(require_sc_address(&addr(3), true), Ok(()));
}

#[test]
fn default_config_is_valid() {
    let c = DcdtSafeConfig::default_config();
    assert_eq!(c.max_tx_gas_limit, DEFAULT_MAX_TX_GAS_LIMIT);
    assert!(c.token_whitelist.is_empty() && c.token_blacklist.is_empty() && c.banned_endpoints.is_empty());
    let safe = deployed_drt();
    assert_eq!(safe.require_dcdt_config_valid(&c), Ok(()));
    assert_eq!(safe.require_dcdt_config_valid(&config(MAX_GAS_PER_TRANSACTION - 1)), Ok(()));
    assert_eq!(
        safe.require_dcdt_config_valid(&config(MAX_GAS_PER_TRANSACTION)),
        Err(BridgeError::MaxGasLimitPerTxExceeded)
    );
}

#[test]
fn drt_init_sets_up_state() {
    let safe = deployed_drt();
    assert!(safe.is_paused());
    assert!(safe.is_admin(&owner()));
    assert!(!safe.is_admin(&addr(9)));
    assert_eq!(safe.owner(), &owner());
    let s = safe.cross_chain_storage();
    assert_eq!(s.header_verifier_address, Some(header_verifier()));
    assert_eq!(s.fee_market_address, None);
    assert_eq!(s.dcdt_safe_config.max_tx_gas_limit, 50_000_000);
    assert_eq!(safe.get_header_verifier_address(), Ok(header_verifier()));
}

#[test]
fn drt_init_without_config_uses_default() {
    let safe = DrtDcdtSafe::init(header_verifier(), None, &owner(), true).unwrap();
    assert_eq!(safe.cross_chain_storage().dcdt_safe_config.max_tx_gas_limit, DEFAULT_MAX_TX_GAS_LIMIT);
}

#[test]
fn drt_init_refusals() {
    assert_eq!(
        DrtDcdtSafe::init(addr(0), None, &owner(), true).err(),
        Some(BridgeError::InvalidScAddress)
    );
    assert_eq!(
        DrtDcdtSafe::init(header_verifier(), None, &owner(), false).err(),
        Some(BridgeError::InvalidScAddress)
    );
    assert_eq!(
        DrtDcdtSafe::init(header_verifier(), Some(config(MAX_GAS_PER_TRANSACTION)), &owner(), true).err(),
        Some(BridgeError::MaxGasLimitPerTxExceeded)
    );
}

#[test]
fn update_configuration_is_admin_only_and_checked() {
    let mut safe = deployed_drt();
    assert_eq!(safe.update_configuration(&addr(9), config(1)), Err(BridgeError::OnlyAdmin));
    assert_eq!(safe.cross_chain_storage().dcdt_safe_config.max_tx_gas_limit, 50_000_000);
    assert_eq!(
        safe.update_configuration(&owner(), config(600_000_000)),
        Err(BridgeError::MaxGasLimitPerTxExceeded)
    );
    assert_eq!(safe.cross_chain_storage().dcdt_safe_config.max_tx_gas_limit, 50_000_000);
    assert_eq!(safe.update_configuration(&owner(), config(70_000_000)), Ok(()));
    assert_eq!(safe.cross_chain_storage().dcdt_safe_config.max_tx_gas_limit, 70_000_000);
}

#[test]
fn admins_can_be_added_and_removed_by_owner() {
    let mut safe = deployed_drt();
    assert_eq!(safe.add_admin(&addr(9), &addr(9)), Err(BridgeError::OnlyOwner));
    assert_eq!(safe.add_admin(&owner(), &addr(9)), Ok(()));
    assert_eq!(safe.update_configuration(&addr(9), config(1)), Ok(()));
    assert_eq!(safe.remove_admin(&owner(), &addr(9)), Ok(()));
    assert_eq!(safe.update_configuration(&addr(9), config(2)), Err(BridgeError::OnlyAdmin));
}

#[test]
fn fee_market_address_is_checked() {
    let mut safe = deployed_drt();
    assert_eq!(safe.set_fee_market_address(&addr(9), addr(4), true), Err(BridgeError::OnlyAdmin));
    assert_eq!(safe.set_fee_market_address(&owner(), addr(0), true), Err(BridgeError::InvalidScAddress));
    assert_eq!(safe.set_fee_market_address(&owner(), addr(4), false), Err(BridgeError::InvalidScAddress));
    assert_eq!(safe.cross_chain_storage().fee_market_address, None);
    assert_eq!(safe.set_fee_market_address(&owner(), addr(4), true), Ok(()));
    assert_eq!(safe.cross_chain_storage().fee_market_address, Some(addr(4)));
}

#[test]
fn max_bridged_amount_is_stored_and_zero_clears_it() {
    let mut safe = deployed_drt();
    let token = FIRST_TEST_TOKEN.as_bytes();
    assert_eq!(safe.set_max_bridged_amount(&addr(9), token, &biguint(5)), Err(BridgeError::OnlyAdmin));
    assert_eq!(safe.set_max_bridged_amount(&owner(), token, &biguint(1000)), Ok(()));
    assert_eq!(safe.cross_chain_storage().max_bridged_amount.get(token), vec![3, 232]);
    assert!(!safe.cross_chain_storage().max_bridged_amount.is_empty(token));
    assert_eq!(safe.set_max_bridged_amount(&owner(), token, &BigUint::zero()), Ok(()));
    assert!(safe.cross_chain_storage().max_bridged_amount.is_empty(token));
}

#[test]
fn pause_and_unpause_are_owner_only() {
    let mut safe = deployed_drt();
    assert_eq!(safe.unpause_endpoint(&addr(9)), Err(BridgeError::OnlyOwner));
    assert!(safe.is_paused());
    assert_eq!(safe.unpause_endpoint(&owner()), Ok(()));
    assert!(!safe.is_paused());
    assert_eq!(safe.pause_endpoint(&owner()), Ok(()));
    assert!(safe.is_paused());
    safe.upgrade();
    assert!(safe.is_paused());
}

#[test]
fn register_token_then_callback_records_both_ways() {
    let mut safe = deployed_drt();
    let req = safe
        .register_token(
            SOV_TOKEN.as_bytes(),
            DcdtTokenType::Fungible,
            b"GREEN".to_vec(),
            b"GREEN".to_vec(),
            18,
            biguint(50_000_000_000_000_000),
        )
        .unwrap();
    assert_eq!(req.gas, REGISTER_GAS);
    assert_eq!(req.token_type, DcdtTokenType::Fungible);
    assert_eq!(req.num_decimals, 18);
    assert_eq!(req.token_ticker, b"GREEN".to_vec());
    assert_eq!(req.issue_cost.to_be_bytes(), biguint(50_000_000_000_000_000).to_be_bytes());
    match &req.callback {
        IssueCallback::Token { sov_token_id } => assert_eq!(sov_token_id, &SOV_TOKEN.as_bytes().to_vec()),
        IssueCallback::NativeToken => panic!("wrong callback"),
    }
    assert_eq!(safe.issue_callback(SOV_TOKEN.as_bytes(), Ok(FIRST_TEST_TOKEN.as_bytes().to_vec())), Ok(()));
    let s = safe.cross_chain_storage();
    assert_eq!(s.sovereign_to_dharitri_token_id.get(SOV_TOKEN.as_bytes()), FIRST_TEST_TOKEN.as_bytes().to_vec());
    assert_eq!(s.dharitri_to_sovereign_token_id.get(FIRST_TEST_TOKEN.as_bytes()), SOV_TOKEN.as_bytes().to_vec());
    let again = safe.register_token(
        SOV_TOKEN.as_bytes(),
        DcdtTokenType::NonFungible,
        b"GREEN".to_vec(),
        b"GREEN".to_vec(),
        0,
        BigUint::zero(),
    );
    assert_eq!(again.err(), Some(BridgeError::TokenAlreadyRegistered));
}

#[test]
fn register_token_refusals() {
    let safe = deployed_drt();
    let no_prefix = safe.register_token(
        FIRST_TEST_TOKEN.as_bytes(),
        DcdtTokenType::Fungible,
        b"GREEN".to_vec(),
        b"GREEN".to_vec(),
        18,
        BigUint::zero(),
    );
    assert_eq!(no_prefix.err(), Some(BridgeError::CannotRegisterToken));
    let invalid = safe.register_token(
        SOV_TOKEN.as_bytes(),
        DcdtTokenType::Invalid,
        b"GREEN".to_vec(),
        b"GREEN".to_vec(),
        18,
        BigUint::zero(),
    );
    assert_eq!(invalid.err(), Some(BridgeError::InvalidType));
}

#[test]
fn failed_issue_keeps_storage() {
    let mut safe = deployed_drt();
    let r = safe.issue_callback(SOV_TOKEN.as_bytes(), Err(AsyncCallError { err_code: 4, err_msg: b"no".to_vec() }));
    assert_eq!(r, Err(BridgeError::IssueFailed { message: b"no".to_vec() }));
    assert!(safe.cross_chain_storage().sovereign_to_dharitri_token_id.is_empty(SOV_TOKEN.as_bytes()));
}

#[test]
fn native_token_is_registered_once() {
    let mut safe = deployed_drt();
    assert_eq!(
        safe.register_native_token(&addr(9), b"NAT".to_vec(), b"Native".to_vec(), BigUint::zero()).err(),
        Some(BridgeError::OnlyOwner)
    );
    let req = safe.register_native_token(&owner(), b"NAT".to_vec(), b"Native".to_vec(), biguint(7)).unwrap();
    assert_eq!(req.token_type, DcdtTokenType::Fungible);
    assert_eq!(req.num_decimals, NATIVE_TOKEN_DECIMALS);
    assert_eq!(req.token_display_name, b"Native".to_vec());
    assert_eq!(req.token_ticker, b"NAT".to_vec());
    assert!(matches!(req.callback, IssueCallback::NativeToken));
    assert!(!safe.is_native_token(b"NAT-123456"));
    assert_eq!(safe.native_token_issue_callback(Ok(b"NAT-123456".to_vec())), Ok(()));
    assert!(safe.is_native_token(b"NAT-123456"));
    assert!(!safe.is_native_token(b"NAT-654321"));
    assert_eq!(
        safe.register_native_token(&owner(), b"NAT".to_vec(), b"Native".to_vec(), BigUint::zero()).err(),
        Some(BridgeError::NativeTokenAlreadyRegistered)
    );
}

#[test]
fn failed_native_issue_is_reported() {
    let mut safe = deployed_drt();
    let r = safe.native_token_issue_callback(Err(AsyncCallError { err_code: 1, err_msg: b"fail".to_vec() }));
    assert_eq!(r, Err(BridgeError::NativeTokenIssueFailed { message: b"fail".to_vec() }));
    assert!(!safe.is_native_token(b""));
}

#[test]
fn dcdt_info_maps_both_ways() {
    let mut safe = deployed_drt();
    safe.update_dcdt_info_mappers(SOV_TOKEN.as_bytes(), 3, FIRST_TEST_TOKEN.as_bytes(), 5);
    let s = safe.cross_chain_storage();
    let fwd = s.sovereign_to_dharitri_dcdt_info.get(SOV_TOKEN.as_bytes(), 3).unwrap();
    assert_eq!(fwd.token_identifier, FIRST_TEST_TOKEN.as_bytes().to_vec());
    assert_eq!(fwd.token_nonce, 5);
    let back = s.dharitri_to_sovereign_dcdt_info.get(FIRST_TEST_TOKEN.as_bytes(), 5).unwrap();
    assert_eq!(back.token_identifier, SOV_TOKEN.as_bytes().to_vec());
    assert_eq!(back.token_nonce, 3);
    assert!(s.sovereign_to_dharitri_dcdt_info.get(SOV_TOKEN.as_bytes(), 4).is_none());
}

#[test]
fn operations_go_to_the_header_verifier() {
    let safe = deployed_drt();
    let call = safe.lock_operation_hash(b"op", b"hoh").unwrap();
    assert_eq!(call.to, header_verifier());
    assert_eq!(call.endpoint, HeaderVerifierEndpoint::LockOperationHash);
    assert_eq!(call.operation_hash, b"op".to_vec());
    assert_eq!(call.hash_of_hashes, b"hoh".to_vec());
    let call = safe.remove_executed_hash(b"hoh", b"op").unwrap();
    assert_eq!(call.endpoint, HeaderVerifierEndpoint::RemoveExecutedHash);
    assert_eq!(call.operation_hash, b"op".to_vec());
    assert_eq!(call.hash_of_hashes, b"hoh".to_vec());
}

#[test]
fn operation_hash_is_sha256() {
    let safe = deployed_drt();
    let h = safe.calculate_operation_hash(b"abc");
    let expected: Vec<u8> = vec![
        0xba, 0x78, 0x16, 0xbf, 0x8f, 0x01, 0xcf, 0xea, 0x41, 0x41, 0x40, 0xde, 0x5d, 0xae, 0x22, 0x23,
        0xb0, 0x03, 0x61, 0xa3, 0x96, 0x17, 0x7a, 0x9c, 0xb4, 0x10, 0xff, 0x61, 0xf2, 0x00, 0x15, 0xad,
    ];
    assert_eq!(h, expected);
    assert_eq!(safe.calculate_operation_hash(b"").len(), 32);
}

#[test]
fn token_kinds() {
    let safe = deployed_drt();
    let all = [
        DcdtTokenType::Fungible,
        DcdtTokenType::NonFungible,
        DcdtTokenType::SemiFungible,
        DcdtTokenType::Meta,
        DcdtTokenType::DynamicNFT,
        DcdtTokenType::DynamicSFT,
        DcdtTokenType::DynamicMeta,
        DcdtTokenType::Invalid,
    ];
    for t in all.iter() {
        let kinds = [safe.is_fungible(t), safe.is_sft_or_meta(t), safe.is_nft(t)];
        let n = kinds.iter().filter(|k| **k).count();
        if *t == DcdtTokenType::Invalid {
            assert_eq!(n, 0);
        } else {
            assert_eq!(n, 1);
        }
    }
    assert!(safe.is_fungible(&DcdtTokenType::Fungible));
    assert!(safe.is_sft_or_meta(&DcdtTokenType::DynamicMeta));
    assert!(safe.is_nft(&DcdtTokenType::DynamicNFT));
    assert!(!safe.is_nft(&DcdtTokenType::SemiFungible));
}

#[test]
fn sov_safe_lifecycle() {
    let fee_market = addr(5);
    assert_eq!(SovDcdtSafe::init(addr(0), None, &owner(), true).err(), Some(BridgeError::InvalidScAddress));
    let mut safe = SovDcdtSafe::init(fee_market.clone(), None, &owner(), true).unwrap();
    assert!(safe.is_paused());
    assert_eq!(safe.cross_chain_storage().fee_market_address, Some(fee_market));
    assert_eq!(safe.lock_operation_hash(b"op", b"hoh").err(), Some(BridgeError::NoHeaderVerifierAddress));
    assert_eq!(safe.get_header_verifier_address(), Err(BridgeError::NoHeaderVerifierAddress));
    assert_eq!(safe.update_configuration(&addr(9), config(1)), Err(BridgeError::OnlyOwner));
    assert_eq!(safe.update_configuration(&owner(), config(MAX_GAS_PER_TRANSACTION)), Err(BridgeError::MaxGasLimitPerTxExceeded));
    assert_eq!(safe.update_configuration(&owner(), config(1)), Ok(()));
    assert_eq!(safe.cross_chain_storage().dcdt_safe_config.max_tx_gas_limit, 1);
    assert_eq!(safe.set_fee_market_address(&owner(), addr(6), true), Ok(()));
    assert_eq!(safe.set_fee_market_address(&addr(9), addr(6), true), Err(BridgeError::OnlyOwner));
    assert_eq!(safe.set_max_bridged_amount(&owner(), b"T-1", &biguint(1)), Ok(()));
    assert_eq!(safe.set_max_bridged_amount(&addr(9), b"T-1", &biguint(1)), Err(BridgeError::OnlyOwner));
    assert_eq!(safe.unpause_endpoint(&owner()), Ok(()));
    assert!(!safe.is_paused());
    assert_eq!(safe.pause_endpoint(&addr(9)), Err(BridgeError::OnlyOwner));
    safe.upgrade();
    assert_eq!(safe.owner(), &owner());
    assert_eq!(safe.calculate_operation_hash(b"abc").len(), 32);
}

#[test]
fn testing_sc_hello_needs_positive_value() {
    let mut sc = TestingSc::init();
    sc.upgrade();
    assert_eq!(sc.hello(&biguint(1)), Ok(()));
    assert_eq!(sc.hello(&BigUint::from_be_bytes(&[0, 0])), Err(BridgeError::ValueNotPositive));
    assert_eq!(sc.hello(&BigUint::zero()), Err(BridgeError::ValueNotPositive));
}

#[test]
fn stores_behave_like_storage() {
    let mut s = ByteStore::new();
    assert_eq!(s.get(b"k"), Vec::<u8>::new());
    s.set(b"k", b"v".to_vec());
    s.set(b"j", b"w".to_vec());
    assert_eq!(s.get(b"k"), b"v".to_vec());
    s.set(b"k", b"x".to_vec());
    assert_eq!(s.get(b"k"), b"x".to_vec());
    s.set(b"k", Vec::new());
    assert!(s.is_empty(b"k"));
    assert_eq!(s.get(b"j"), b"w".to_vec());

    let mut i = InfoStore::new();
    assert!(i.is_empty(b"a", 1));
    i.set(b"a", 1, DcdtInfo { token_identifier: b"b".to_vec(), token_nonce: 2 });
    i.set(b"a", 1, DcdtInfo { token_identifier: b"c".to_vec(), token_nonce: 3 });
    assert_eq!(i.get(b"a", 1).map(|d| (d.token_identifier, d.token_nonce)), Some((b"c".to_vec(), 3)));
    assert!(!i.is_empty(b"a", 1));

    let mut a = AddressSet::new();
    assert!(a.insert(b"x"));
    assert!(!a.insert(b"x"));
    assert!(a.contains(b"x"));
    assert!(a.remove(b"x"));
    assert!(!a.remove(b"x"));
    assert!(!a.contains(b"x"));
}
