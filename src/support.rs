//! Types shared by every module: blocks, extrinsics, results and dispatch.

use vstd::prelude::*;

verus! {

/// The ways in which a call or a block can fail.
#[derive(Clone, Copy, Debug, PartialEq, Eq, Structural)]
pub enum DispatchError {
    /// The caller's balance is smaller than the amount to move.
    InsufficientFunds,
    /// The receiver's balance would exceed what a balance can hold.
    Overflow,
    /// The content is already claimed.
    AlreadyClaimed,
    /// The content is not claimed by anyone.
    ClaimNotFound,
    /// The content is claimed by another account.
    NotClaimOwner,
    /// The block does not carry the number that comes next.
    BlockNumberMismatch,
}

impl DispatchError {
    /// A human-readable description of the error.
    pub fn message(&self) -> (r: &'static str)
        ensures
            match *self {
                DispatchError::InsufficientFunds => r@ == "Insufficient funds."@,
                DispatchError::Overflow => r@ == "Overflow."@,
                DispatchError::AlreadyClaimed => r@ == "This content is already been claimed."@,
                DispatchError::ClaimNotFound => r@ == "Claim does not exist."@,
                DispatchError::NotClaimOwner => r@ == "This content is owned by some other user."@,
                DispatchError::BlockNumberMismatch => r@ == "The current block number is invalid."@,
            },
    {
        match self {
            DispatchError::InsufficientFunds => "Insufficient funds.",
            DispatchError::Overflow => "Overflow.",
            DispatchError::AlreadyClaimed => "This content is already been claimed.",
            DispatchError::ClaimNotFound => "Claim does not exist.",
            DispatchError::NotClaimOwner => "This content is owned by some other user.",
            DispatchError::BlockNumberMismatch => "The current block number is invalid.",
        }
    }
}

/// The outcome of a call: success, or the reason it failed.
pub type DispatchResult = Result<(), DispatchError>;

/// The most primitive representation of a block: a header and the extrinsics
/// to execute, in order.
pub struct Block<Header, Extrinsic> {
    /// Metadata about the block.
    pub header: Header,
    /// The state transitions to execute in this block.
    pub extrinsics: Vec<Extrinsic>,
}

/// A block header, holding only the number the block claims to have.
pub struct Header<BlockNumber> {
    pub block_number: BlockNumber,
}

/// An external request: who makes it, and which call they make.
pub struct Extrinsic<Caller, Call> {
    pub caller: Caller,
    pub call: Call,
}

/// Routes a call made on behalf of a caller to the operation it names.
pub trait Dispatch {
    /// Identifies who makes the call.
    type Caller;
    /// The calls that can be made.
    type Call;

    /// The state is well formed.
    spec fn wf(&self) -> bool;

    /// Performs `call` on behalf of `caller` and returns its outcome.
    fn dispatch(&mut self, caller: Self::Caller, call: Self::Call) -> (r: DispatchResult)
        requires
            old(self).wf(),
        ensures
            final(self).wf(),
    ;
}

} // verus!
