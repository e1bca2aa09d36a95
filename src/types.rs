//! The concrete types every module of the runtime is configured with.

use vstd::prelude::*;

verus! {

/// Identifies an account.
pub type AccountId = String;

/// An amount of funds.
pub type Balance = u128;

/// Counts blocks.
pub type BlockNumber = u32;

/// Counts the extrinsics processed for one account.
pub type Nonce = u32;

/// A content key that can be claimed.
pub type Content = String;

/// An extrinsic of this runtime.
pub type Extrinsic = crate::support::Extrinsic<AccountId, crate::runtime::RuntimeCall>;

/// A header of this runtime.
pub type Header = crate::support::Header<BlockNumber>;

/// A block of this runtime.
pub type Block = crate::support::Block<Header, Extrinsic>;

} // verus!
