use vstd::prelude::*;

verus! {

/// Kind of a DCDT token, as issued by the system token contract.
#[derive(Clone, Copy, Debug, PartialEq, Eq, Structural)]
pub enum DcdtTokenType {
    Fungible,
    NonFungible,
    SemiFungible,
    Meta,
    DynamicNFT,
    DynamicSFT,
    DynamicMeta,
    Invalid,
}

/// A fungible token.
pub open spec fn spec_is_fungible(t: DcdtTokenType) -> bool {
    t == DcdtTokenType::Fungible
}

/// A semi-fungible or meta token, dynamic or not.
pub open spec fn spec_is_sft_or_meta(t: DcdtTokenType) -> bool {
    ||| t == DcdtTokenType::SemiFungible
    ||| t == DcdtTokenType::DynamicSFT
    ||| t == DcdtTokenType::Meta
    ||| t == DcdtTokenType::DynamicMeta
}

/// A non-fungible token, dynamic or not.
pub open spec fn spec_is_nft(t: DcdtTokenType) -> bool {
    t == DcdtTokenType::NonFungible || t == DcdtTokenType::DynamicNFT
}

} // verus!
