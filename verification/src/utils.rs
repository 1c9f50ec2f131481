use vstd::prelude::*;

use crate::bytes::{all_zero, count_byte, count_occurrences, is_all_zero};
use crate::errors::BridgeError;

verus! {

/// Accepts `address` when it is not the zero address and the chain reports it to be a
/// smart contract (`is_smart_contract` is that report).
pub fn require_sc_address(address: &[u8], is_smart_contract: bool) -> (r: Result<(), BridgeError>)
    ensures
        r is Ok <==> (!all_zero(address@) && is_smart_contract),
        r is Err ==> r == Err::<(), BridgeError>(BridgeError::InvalidScAddress),
{
    if !is_all_zero(address) && is_smart_contract {
        Ok(())
    } else {
        Err(BridgeError::InvalidScAddress)
    }
}

/// A token identifier that carries a chain prefix, `prefix-TICKER-random`: exactly two dashes.
pub open spec fn spec_has_prefix(token_id: Seq<u8>) -> bool {
    count_byte(token_id, 0x2du8) == 2
}

/// Whether the token identifier carries a chain prefix.
pub fn has_prefix(token_id: &[u8]) -> (r: bool)
    ensures
        r == spec_has_prefix(token_id@),
{
    count_occurrences(token_id, 0x2du8) == 2
}

} // verus!
