//! The token safes of a cross-chain bridge, as state machines over a model of their
//! contract storage: configuration checks, access control, token registration with its
//! asynchronous issue requests, operation hashing and the calls made to the header verifier.

pub mod biguint;
pub mod bytes;
pub mod config;
pub mod drt_dcdt_safe;
pub mod errors;
pub mod execute_common;
pub mod hashing;
pub mod laws;
pub mod register_token;
pub mod sov_dcdt_safe;
pub mod storage;
pub mod store;
pub mod testing_sc;
pub mod token;
pub mod utils;
