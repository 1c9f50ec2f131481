use vstd::prelude::*;

use crate::config::{ConfigView, DcdtSafeConfig};
use crate::store::{ByteStore, InfoStore};

verus! {

/// The storage shared by the safe contracts on both sides of the bridge.
pub struct CrossChainStorage {
    pub last_tx_nonce: u64,
    pub dcdt_safe_config: DcdtSafeConfig,
    pub fee_market_address: Option<Vec<u8>>,
    pub header_verifier_address: Option<Vec<u8>>,
    /// Sovereign token identifier to the identifier issued for it here.
    pub sovereign_to_dharitri_token_id: ByteStore,
    /// Identifier issued here to the sovereign token identifier.
    pub dharitri_to_sovereign_token_id: ByteStore,
    /// Sovereign token and nonce to the token and nonce that stand for them here.
    pub sovereign_to_dharitri_dcdt_info: InfoStore,
    /// Token and nonce here to the sovereign token and nonce.
    pub dharitri_to_sovereign_dcdt_info: InfoStore,
    /// The native token; empty while none is registered.
    pub native_token: Vec<u8>,
    pub is_sovereign_chain: bool,
    /// Token identifier to the shortest big-endian magnitude of its bridging cap.
    pub max_bridged_amount: ByteStore,
}

/// The contents of the shared storage.
pub struct StorageView {
    pub last_tx_nonce: u64,
    pub config: ConfigView,
    pub fee_market_address: Option<Seq<u8>>,
    pub header_verifier_address: Option<Seq<u8>>,
    pub sov_to_drt_token_id: Map<Seq<u8>, Seq<u8>>,
    pub drt_to_sov_token_id: Map<Seq<u8>, Seq<u8>>,
    pub sov_to_drt_info: Map<(Seq<u8>, u64), (Seq<u8>, u64)>,
    pub drt_to_sov_info: Map<(Seq<u8>, u64), (Seq<u8>, u64)>,
    pub native_token: Seq<u8>,
    pub is_sovereign_chain: bool,
    pub max_bridged_amount: Map<Seq<u8>, Seq<u8>>,
}

/// The contents of an optional byte string.
pub open spec fn opt_bytes_view(o: Option<Vec<u8>>) -> Option<Seq<u8>> {
    match o {
        Some(v) => Some(v@),
        None => None,
    }
}

impl View for CrossChainStorage {
    type V = StorageView;

    open spec fn view(&self) -> StorageView {
        StorageView {
            last_tx_nonce: self.last_tx_nonce,
            config: self.dcdt_safe_config@,
            fee_market_address: opt_bytes_view(self.fee_market_address),
            header_verifier_address: opt_bytes_view(self.header_verifier_address),
            sov_to_drt_token_id: self.sovereign_to_dharitri_token_id@,
            drt_to_sov_token_id: self.dharitri_to_sovereign_token_id@,
            sov_to_drt_info: self.sovereign_to_dharitri_dcdt_info@,
            drt_to_sov_info: self.dharitri_to_sovereign_dcdt_info@,
            native_token: self.native_token@,
            is_sovereign_chain: self.is_sovereign_chain,
            max_bridged_amount: self.max_bridged_amount@,
        }
    }
}

/// Storage that holds `config` and nothing else.
pub open spec fn fresh_storage(config: ConfigView) -> StorageView {
    StorageView {
        last_tx_nonce: 0,
        config,
        fee_market_address: None,
        header_verifier_address: None,
        sov_to_drt_token_id: Map::empty(),
        drt_to_sov_token_id: Map::empty(),
        sov_to_drt_info: Map::empty(),
        drt_to_sov_info: Map::empty(),
        native_token: Seq::empty(),
        is_sovereign_chain: false,
        max_bridged_amount: Map::empty(),
    }
}

impl CrossChainStorage {
    /// Well-formedness of every storage area.
    pub open spec fn wf(&self) -> bool {
        &&& self.sovereign_to_dharitri_token_id.wf()
        &&& self.dharitri_to_sovereign_token_id.wf()
        &&& self.sovereign_to_dharitri_dcdt_info.wf()
        &&& self.dharitri_to_sovereign_dcdt_info.wf()
        &&& self.max_bridged_amount.wf()
    }

    /// Storage that holds `config` and nothing else.
    pub fn new(config: DcdtSafeConfig) -> (r: CrossChainStorage)
        ensures
            r.wf(),
            r@ == fresh_storage(config@),
    {
        CrossChainStorage {
            last_tx_nonce: 0,
            dcdt_safe_config: config,
            fee_market_address: None,
            header_verifier_address: None,
            sovereign_to_dharitri_token_id: ByteStore::new(),
            dharitri_to_sovereign_token_id: ByteStore::new(),
            sovereign_to_dharitri_dcdt_info: InfoStore::new(),
            dharitri_to_sovereign_dcdt_info: InfoStore::new(),
            native_token: Vec::new(),
            is_sovereign_chain: false,
            max_bridged_amount: ByteStore::new(),
        }
    }
}

} // verus!
