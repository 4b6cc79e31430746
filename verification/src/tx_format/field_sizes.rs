//! Size in bytes of each fixed field in the canonical transaction.
use vstd::prelude::*;

verus! {

/// `version: u8`
pub const VERSION: usize = 1;

/// `nonce: u64`
pub const NONCE: usize = 8;

/// `to_address: [u8; 32]`
pub const TO_ADDRESS: usize = 32;

/// `amount: u64`
pub const AMOUNT: usize = 8;

/// `fee: u64`
pub const FEE: usize = 8;

/// `payload_hash: [u8; 32]`, zeroed when unused but always present.
pub const PAYLOAD_HASH: usize = 32;

/// A 32-byte hash-of-public-key address, used in place of an inline public key.
pub const KEY_HASH_ADDRESS: usize = 32;

} // verus!
