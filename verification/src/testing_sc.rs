use vstd::prelude::*;

use crate::biguint::BigUint;
use crate::errors::BridgeError;

verus! {

/// A contract that the bridge calls in its tests: it accepts any positive value.
pub struct TestingSc;

impl TestingSc {
    /// Deploys the contract.
    pub fn init() -> (r: TestingSc) {
        TestingSc
    }

    /// Upgrade hook: changes nothing.
    pub fn upgrade(&mut self) {
    }

    /// Accepts `value` exactly when it is greater than zero.
    pub fn hello(&self, value: &BigUint) -> (r: Result<(), BridgeError>)
        ensures
            r is Ok <==> value@ > 0,
            r is Err ==> r == Err::<(), BridgeError>(BridgeError::ValueNotPositive),
    {
        if value.is_zero() {
            Err(BridgeError::ValueNotPositive)
        } else {
            Ok(())
        }
    }
}

} // verus!
