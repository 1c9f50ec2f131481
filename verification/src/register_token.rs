use vstd::prelude::*;

use crate::biguint::BigUint;
use crate::bytes::bytes_to_vec;
use crate::config::REGISTER_GAS;
use crate::drt_dcdt_safe::DrtDcdtSafe;
use crate::errors::BridgeError;
use crate::execute_common::ExecuteCommonModule;
use crate::storage::StorageView;
use crate::store::store_write;
use crate::token::DcdtTokenType;
use crate::utils::{has_prefix, spec_has_prefix};

verus! {

/// Number of decimals of the native token.
pub const NATIVE_TOKEN_DECIMALS: usize = 18;

/// What to do when the system contract answers an issue request.
pub enum IssueCallback {
    /// Record the issued token as the counterpart of this sovereign token.
    Token { sov_token_id: Vec<u8> },
    /// Record the issued token as the native token.
    NativeToken,
}

/// A request to the system token contract to issue a token and grant this contract all
/// roles on it, to be sent by the caller with the issue cost as payment.
pub struct IssueRequest {
    pub issue_cost: BigUint,
    pub token_display_name: Vec<u8>,
    pub token_ticker: Vec<u8>,
    pub token_type: DcdtTokenType,
    pub num_decimals: usize,
    pub gas: u64,
    pub callback: IssueCallback,
}

/// The callback records the issued token for the sovereign token `id`.
pub open spec fn callback_for_token(cb: IssueCallback, id: Seq<u8>) -> bool {
    match cb {
        IssueCallback::Token { sov_token_id } => sov_token_id@ == id,
        IssueCallback::NativeToken => false,
    }
}

/// The arguments of a token issue.
pub struct IssueDcdtArgs {
    pub sov_token_id: Vec<u8>,
    pub issue_cost: BigUint,
    pub token_display_name: Vec<u8>,
    pub token_ticker: Vec<u8>,
    pub token_type: DcdtTokenType,
    pub num_decimals: usize,
}

/// The failure an asynchronous call reports.
pub struct AsyncCallError {
    pub err_code: u32,
    pub err_msg: Vec<u8>,
}

/// Why `register_token` refuses, if it does.
pub open spec fn register_token_refusal(
    s: StorageView,
    sov_token_id: Seq<u8>,
    token_type: DcdtTokenType,
) -> Option<BridgeError> {
    if s.sov_to_drt_token_id.contains_key(sov_token_id) {
        Some(BridgeError::TokenAlreadyRegistered)
    } else if !spec_has_prefix(sov_token_id) {
        Some(BridgeError::CannotRegisterToken)
    } else if token_type == DcdtTokenType::Invalid {
        Some(BridgeError::InvalidType)
    } else {
        None
    }
}

/// Why `register_native_token` refuses, if it does.
pub open spec fn register_native_token_refusal(
    owner: Seq<u8>,
    s: StorageView,
    caller: Seq<u8>,
) -> Option<BridgeError> {
    if caller != owner {
        Some(BridgeError::OnlyOwner)
    } else if s.native_token.len() > 0 {
        Some(BridgeError::NativeTokenAlreadyRegistered)
    } else {
        None
    }
}

/// The storage after recording `drt_token_id` as the counterpart of `sov_token_id`.
pub open spec fn with_corresponding_token_ids(
    s: StorageView,
    sov_token_id: Seq<u8>,
    drt_token_id: Seq<u8>,
) -> StorageView {
    StorageView {
        sov_to_drt_token_id: store_write(s.sov_to_drt_token_id, sov_token_id, drt_token_id),
        drt_to_sov_token_id: store_write(s.drt_to_sov_token_id, drt_token_id, sov_token_id),
        ..s
    }
}

/// The storage after recording that `(drt_id, new_nft_nonce)` stands for
/// `(sov_id, sov_nonce)`.
pub open spec fn with_dcdt_info(
    s: StorageView,
    sov_id: Seq<u8>,
    sov_nonce: u64,
    drt_id: Seq<u8>,
    new_nft_nonce: u64,
) -> StorageView {
    StorageView {
        sov_to_drt_info: s.sov_to_drt_info.insert((sov_id, sov_nonce), (drt_id, new_nft_nonce)),
        drt_to_sov_info: s.drt_to_sov_info.insert((drt_id, new_nft_nonce), (sov_id, sov_nonce)),
        ..s
    }
}

/// The storage after writing the native token.
pub open spec fn with_native_token(s: StorageView, token: Seq<u8>) -> StorageView {
    StorageView { native_token: token, ..s }
}

/// The request holds the given issue arguments and the standard gas.
pub open spec fn request_matches(
    req: IssueRequest,
    issue_cost: nat,
    token_display_name: Seq<u8>,
    token_ticker: Seq<u8>,
    token_type: DcdtTokenType,
    num_decimals: usize,
) -> bool {
    &&& req.issue_cost@ == issue_cost
    &&& req.token_display_name@ == token_display_name
    &&& req.token_ticker@ == token_ticker
    &&& req.token_type == token_type
    &&& req.num_decimals == num_decimals
    &&& req.gas == REGISTER_GAS
}

/// Registration of tokens issued here for tokens of a sovereign chain.
pub trait RegisterTokenModule: ExecuteCommonModule + Sized {
    /// The owner of the contract.
    spec fn owner_view(&self) -> Seq<u8>;

    /// Everything but the shared storage is the same in `self` and `other`.
    spec fn same_outside_storage(&self, other: Self) -> bool;

    /// Starts issuing a token for the sovereign token `sov_token_id`; `issue_cost` is the
    /// REWA paid with the call.
    fn register_token(
        &self,
        sov_token_id: &[u8],
        token_type: DcdtTokenType,
        token_display_name: Vec<u8>,
        token_ticker: Vec<u8>,
        num_decimals: usize,
        issue_cost: BigUint,
    ) -> (r: Result<IssueRequest, BridgeError>)
        requires
            self.storage_wf(),
        ensures
            !self.storage_view().sov_to_drt_token_id.contains_key(sov_token_id@) && spec_has_prefix(
                sov_token_id@,
            ) && token_type != DcdtTokenType::Invalid ==> (r matches Ok(req) && req.token_type
                == token_type),
            r == Err::<IssueRequest, BridgeError>(BridgeError::InvalidType) ==> token_type
                == DcdtTokenType::Invalid,
            match register_token_refusal(self.storage_view(), sov_token_id@, token_type) {
                Some(e) => r == Err::<IssueRequest, BridgeError>(e),
                None => {
                    &&& r matches Ok(req)
                    &&& request_matches(
                        req,
                        issue_cost@,
                        token_display_name@,
                        token_ticker@,
                        token_type,
                        num_decimals,
                    )
                    &&& callback_for_token(req.callback, sov_token_id@)
                },
            },
    ;

    /// Owner-only: starts issuing the native token, fungible with 18 decimals; `issue_cost`
    /// is the REWA paid with the call.
    fn register_native_token(
        &self,
        caller: &[u8],
        token_ticker: Vec<u8>,
        token_name: Vec<u8>,
        issue_cost: BigUint,
    ) -> (r: Result<IssueRequest, BridgeError>)
        requires
            self.storage_wf(),
        ensures
            match register_native_token_refusal(self.owner_view(), self.storage_view(), caller@) {
                Some(e) => r == Err::<IssueRequest, BridgeError>(e),
                None => {
                    &&& r matches Ok(req)
                    &&& request_matches(
                        req,
                        issue_cost@,
                        token_name@,
                        token_ticker@,
                        DcdtTokenType::Fungible,
                        NATIVE_TOKEN_DECIMALS,
                    )
                    &&& req.callback is NativeToken
                },
            },
    ;

    /// The issue request for `args`, answered by `issue_callback`.
    fn handle_token_issue(&self, args: IssueDcdtArgs) -> (r: IssueRequest)
        ensures
            request_matches(
                r,
                args.issue_cost@,
                args.token_display_name@,
                args.token_ticker@,
                args.token_type,
                args.num_decimals,
            ),
            callback_for_token(r.callback, args.sov_token_id@),
    ;

    /// Answer to a token issue: on success records the issued token as the counterpart of
    /// `sov_token_id`, both ways; on failure refuses with the system contract's message.
    fn issue_callback(&mut self, sov_token_id: &[u8], result: Result<Vec<u8>, AsyncCallError>) -> (r:
        Result<(), BridgeError>)
        requires
            old(self).storage_wf(),
        ensures
            final(self).storage_wf(),
            final(self).same_outside_storage(*old(self)),
            match result {
                Ok(drt_token_id) => r is Ok && final(self).storage_view()
                    == with_corresponding_token_ids(
                    old(self).storage_view(),
                    sov_token_id@,
                    drt_token_id@,
                ),
                Err(err) => r == Err::<(), BridgeError>(
                    BridgeError::IssueFailed { message: err.err_msg },
                ) && final(self).storage_view() == old(self).storage_view(),
            },
    ;

    /// Answer to the native token issue: on success stores the issued token as the native
    /// token; on failure refuses with the system contract's message.
    fn native_token_issue_callback(&mut self, result: Result<Vec<u8>, AsyncCallError>) -> (r: Result<
        (),
        BridgeError,
    >)
        requires
            old(self).storage_wf(),
        ensures
            final(self).storage_wf(),
            final(self).same_outside_storage(*old(self)),
            match result {
                Ok(native_token_id) => r is Ok && final(self).storage_view() == with_native_token(
                    old(self).storage_view(),
                    native_token_id@,
                ),
                Err(err) => r == Err::<(), BridgeError>(
                    BridgeError::NativeTokenIssueFailed { message: err.err_msg },
                ) && final(self).storage_view() == old(self).storage_view(),
            },
    ;

    /// Records `drt_token_id` as the counterpart of `sov_token_id`, both ways.
    fn set_corresponding_token_ids(&mut self, sov_token_id: &[u8], drt_token_id: &[u8])
        requires
            old(self).storage_wf(),
        ensures
            final(self).storage_wf(),
            final(self).same_outside_storage(*old(self)),
            final(self).storage_view() == with_corresponding_token_ids(
                old(self).storage_view(),
                sov_token_id@,
                drt_token_id@,
            ),
    ;

    /// Records that `(drt_id, new_nft_nonce)` stands for `(sov_id, sov_nonce)`, both ways.
    fn update_dcdt_info_mappers(
        &mut self,
        sov_id: &[u8],
        sov_nonce: u64,
        drt_id: &[u8],
        new_nft_nonce: u64,
    )
        requires
            old(self).storage_wf(),
        ensures
            final(self).storage_wf(),
            final(self).same_outside_storage(*old(self)),
            final(self).storage_view() == with_dcdt_info(
                old(self).storage_view(),
                sov_id@,
                sov_nonce,
                drt_id@,
                new_nft_nonce,
            ),
    ;
}

impl RegisterTokenModule for DrtDcdtSafe {
    open spec fn owner_view(&self) -> Seq<u8> {
        self@.owner
    }

    open spec fn same_outside_storage(&self, other: Self) -> bool {
        &&& self@.owner == other@.owner
        &&& self@.admins == other@.admins
        &&& self@.paused == other@.paused
    }

    fn register_token(
        &self,
        sov_token_id: &[u8],
        token_type: DcdtTokenType,
        token_display_name: Vec<u8>,
        token_ticker: Vec<u8>,
        num_decimals: usize,
        issue_cost: BigUint,
    ) -> (r: Result<IssueRequest, BridgeError>) {
        let s = self.cross_chain_storage();
        if !s.sovereign_to_dharitri_token_id.is_empty(sov_token_id) {
            return Err(BridgeError::TokenAlreadyRegistered);
        }
        if !has_prefix(sov_token_id) {
            return Err(BridgeError::CannotRegisterToken);
        }
        match token_type {
            DcdtTokenType::Invalid => Err(BridgeError::InvalidType),
            _ => Ok(
                self.handle_token_issue(
                    IssueDcdtArgs {
                        sov_token_id: bytes_to_vec(sov_token_id),
                        issue_cost,
                        token_display_name,
                        token_ticker,
                        token_type,
                        num_decimals,
                    },
                ),
            ),
        }
    }

    fn register_native_token(
        &self,
        caller: &[u8],
        token_ticker: Vec<u8>,
        token_name: Vec<u8>,
        issue_cost: BigUint,
    ) -> (r: Result<IssueRequest, BridgeError>) {
        self.check_caller_is_owner(caller)?;
        let s = self.cross_chain_storage();
        if s.native_token.len() != 0 {
            return Err(BridgeError::NativeTokenAlreadyRegistered);
        }
        Ok(
            IssueRequest {
                issue_cost,
                token_display_name: token_name,
                token_ticker,
                token_type: DcdtTokenType::Fungible,
                num_decimals: NATIVE_TOKEN_DECIMALS,
                gas: REGISTER_GAS,
                callback: IssueCallback::NativeToken,
            },
        )
    }

    fn handle_token_issue(&self, args: IssueDcdtArgs) -> (r: IssueRequest) {
        IssueRequest {
            issue_cost: args.issue_cost,
            token_display_name: args.token_display_name,
            token_ticker: args.token_ticker,
            token_type: args.token_type,
            num_decimals: args.num_decimals,
            gas: REGISTER_GAS,
            callback: IssueCallback::Token { sov_token_id: args.sov_token_id },
        }
    }

    fn issue_callback(&mut self, sov_token_id: &[u8], result: Result<Vec<u8>, AsyncCallError>) -> (r:
        Result<(), BridgeError>) {
        match result {
            Ok(drt_token_id) => {
                self.set_corresponding_token_ids(sov_token_id, drt_token_id.as_slice());
                Ok(())
            },
            Err(error) => Err(BridgeError::IssueFailed { message: error.err_msg }),
        }
    }

    fn native_token_issue_callback(&mut self, result: Result<Vec<u8>, AsyncCallError>) -> (r: Result<
        (),
        BridgeError,
    >) {
        match result {
            Ok(native_token_id) => {
                self.set_native_token(native_token_id);
                Ok(())
            },
            Err(error) => Err(BridgeError::NativeTokenIssueFailed { message: error.err_msg }),
        }
    }

    fn set_corresponding_token_ids(&mut self, sov_token_id: &[u8], drt_token_id: &[u8]) {
        self.set_token_id_pair(sov_token_id, drt_token_id);
    }

    fn update_dcdt_info_mappers(
        &mut self,
        sov_id: &[u8],
        sov_nonce: u64,
        drt_id: &[u8],
        new_nft_nonce: u64,
    ) {
        self.set_dcdt_info_pair(sov_id, sov_nonce, drt_id, new_nft_nonce);
    }
}

} // verus!
