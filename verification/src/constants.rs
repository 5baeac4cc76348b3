//! Capacity limits of the stored records.

use vstd::prelude::*;

verus! {

/// Most owners one wallet can have.
pub const MAX_SIGNERS: usize = 32;

/// Most account references one sub-operation of a payload can carry.
pub const MAX_ACCOUNTS: usize = 32;

/// Most data bytes one sub-operation of a payload can carry.
pub const MAX_DATA_SIZE: usize = 1024;

/// Most transactions a wallet's pending index can hold at once.
pub const MAX_PENDING_TXS: usize = 100;

} // verus!
