use vstd::prelude::*;

verus! {

/// Why a request to one of the safe contracts was refused.
#[derive(Debug, PartialEq, Eq)]
pub enum BridgeError {
    /// No header verifier address is stored.
    NoHeaderVerifierAddress,
    /// A configuration's gas limit per transaction is not below the chain's maximum.
    MaxGasLimitPerTxExceeded,
    /// The address is the zero address or not a smart contract.
    InvalidScAddress,
    /// The sovereign token identifier already has a counterpart.
    TokenAlreadyRegistered,
    /// The sovereign token identifier does not carry a chain prefix.
    CannotRegisterToken,
    /// The token type is `Invalid`.
    InvalidType,
    /// A native token is already stored.
    NativeTokenAlreadyRegistered,
    /// The caller is not the owner of the contract.
    OnlyOwner,
    /// The caller is not one of the admins of the contract.
    OnlyAdmin,
    /// The system contract refused to issue a token; its message.
    IssueFailed { message: Vec<u8> },
    /// The system contract refused to issue the native token; its message.
    NativeTokenIssueFailed { message: Vec<u8> },
    /// The value is zero.
    ValueNotPositive,
}

} // verus!
