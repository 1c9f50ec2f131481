use vstd::prelude::*;

use crate::bytes::{bytes_clone, bytes_eq, bytes_to_vec};
use crate::errors::BridgeError;
use crate::hashing::{sha256, sha256_digest};
use crate::storage::{CrossChainStorage, StorageView};
use crate::token::{spec_is_fungible, spec_is_nft, spec_is_sft_or_meta, DcdtTokenType};

verus! {

/// An endpoint of the header verifier contract that a safe calls.
#[derive(Debug, PartialEq, Eq, Clone, Copy, Structural)]
pub enum HeaderVerifierEndpoint {
    LockOperationHash,
    RemoveExecutedHash,
}

/// A synchronous call to the header verifier contract, to be made by the caller.
pub struct HeaderVerifierCall {
    /// Address of the header verifier.
    pub to: Vec<u8>,
    pub endpoint: HeaderVerifierEndpoint,
    pub hash_of_hashes: Vec<u8>,
    pub operation_hash: Vec<u8>,
}

/// The call to the header verifier that `endpoint` asks for, given the storage.
pub open spec fn header_verifier_call_ok(
    s: StorageView,
    call: HeaderVerifierCall,
    endpoint: HeaderVerifierEndpoint,
    hash_of_hashes: Seq<u8>,
    operation_hash: Seq<u8>,
) -> bool {
    &&& s.header_verifier_address == Some(call.to@)
    &&& call.endpoint == endpoint
    &&& call.hash_of_hashes@ == hash_of_hashes
    &&& call.operation_hash@ == operation_hash
}

/// Logic shared by the safes for executing bridge operations.
pub trait ExecuteCommonModule {
    /// The storage is well formed.
    spec fn storage_wf(&self) -> bool;

    /// The contents of the shared storage.
    spec fn storage_view(&self) -> StorageView;

    /// The shared storage.
    fn cross_chain_storage(&self) -> (s: &CrossChainStorage)
        requires
            self.storage_wf(),
        ensures
            s.wf(),
            s@ == self.storage_view(),
    ;

    /// Hash of an operation: the SHA-256 digest of its encoding.
    fn calculate_operation_hash(&self, encoded_operation: &[u8]) -> (r: Vec<u8>)
        ensures
            r@ == sha256_digest(encoded_operation@),
            r@.len() == 32,
    {
        sha256(encoded_operation)
    }

    /// The call that locks `operation_hash` under `hash_of_hashes` in the header verifier.
    fn lock_operation_hash(&self, operation_hash: &[u8], hash_of_hashes: &[u8]) -> (r: Result<
        HeaderVerifierCall,
        BridgeError,
    >)
        requires
            self.storage_wf(),
        ensures
            match r {
                Ok(call) => header_verifier_call_ok(
                    self.storage_view(),
                    call,
                    HeaderVerifierEndpoint::LockOperationHash,
                    hash_of_hashes@,
                    operation_hash@,
                ),
                Err(e) => self.storage_view().header_verifier_address is None && e
                    == BridgeError::NoHeaderVerifierAddress,
            },
    {
        let to = self.get_header_verifier_address()?;
        Ok(
            HeaderVerifierCall {
                to,
                endpoint: HeaderVerifierEndpoint::LockOperationHash,
                hash_of_hashes: bytes_to_vec(hash_of_hashes),
                operation_hash: bytes_to_vec(operation_hash),
            },
        )
    }

    /// The call that removes the executed `op_hash` under `hash_of_hashes` from the header
    /// verifier.
    fn remove_executed_hash(&self, hash_of_hashes: &[u8], op_hash: &[u8]) -> (r: Result<
        HeaderVerifierCall,
        BridgeError,
    >)
        requires
            self.storage_wf(),
        ensures
            match r {
                Ok(call) => header_verifier_call_ok(
                    self.storage_view(),
                    call,
                    HeaderVerifierEndpoint::RemoveExecutedHash,
                    hash_of_hashes@,
                    op_hash@,
                ),
                Err(e) => self.storage_view().header_verifier_address is None && e
                    == BridgeError::NoHeaderVerifierAddress,
            },
    {
        let to = self.get_header_verifier_address()?;
        Ok(
            HeaderVerifierCall {
                to,
                endpoint: HeaderVerifierEndpoint::RemoveExecutedHash,
                hash_of_hashes: bytes_to_vec(hash_of_hashes),
                operation_hash: bytes_to_vec(op_hash),
            },
        )
    }

    /// The stored header verifier address; refused when none is stored.
    fn get_header_verifier_address(&self) -> (r: Result<Vec<u8>, BridgeError>)
        requires
            self.storage_wf(),
        ensures
            match r {
                Ok(a) => self.storage_view().header_verifier_address == Some(a@),
                Err(e) => self.storage_view().header_verifier_address is None && e
                    == BridgeError::NoHeaderVerifierAddress,
            },
    {
        let s = self.cross_chain_storage();
        match &s.header_verifier_address {
            Some(a) => Ok(bytes_clone(a)),
            None => Err(BridgeError::NoHeaderVerifierAddress),
        }
    }

    /// Whether `token_identifier` is the registered native token; false while none is.
    fn is_native_token(&self, token_identifier: &[u8]) -> (r: bool)
        requires
            self.storage_wf(),
        ensures
            r == (self.storage_view().native_token.len() > 0 && token_identifier@
                == self.storage_view().native_token),
    {
        let s = self.cross_chain_storage();
        if s.native_token.len() == 0 {
            return false;
        }
        bytes_eq(token_identifier, s.native_token.as_slice())
    }

    /// Whether the token type is fungible.
    fn is_fungible(&self, token_type: &DcdtTokenType) -> (r: bool)
        ensures
            r == spec_is_fungible(*token_type),
    {
        *token_type == DcdtTokenType::Fungible
    }

    /// Whether the token type is semi-fungible or meta, dynamic or not.
    fn is_sft_or_meta(&self, token_type: &DcdtTokenType) -> (r: bool)
        ensures
            r == spec_is_sft_or_meta(*token_type),
    {
        *token_type == DcdtTokenType::SemiFungible || *token_type == DcdtTokenType::DynamicSFT
            || *token_type == DcdtTokenType::Meta || *token_type == DcdtTokenType::DynamicMeta
    }

    /// Whether the token type is non-fungible, dynamic or not.
    fn is_nft(&self, token_type: &DcdtTokenType) -> (r: bool)
        ensures
            r == spec_is_nft(*token_type),
    {
        *token_type == DcdtTokenType::NonFungible || *token_type == DcdtTokenType::DynamicNFT
    }
}

} // verus!
