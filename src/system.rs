//! The system module: the current block number and a nonce per account.

use vstd::prelude::*;
use crate::storage::StorageMap;
use crate::types::{AccountId, BlockNumber, Nonce};

verus! {

/// The nonce of `who` in `nonces`; an account never written has nonce zero.
pub open spec fn nonce_in(nonces: Map<Seq<char>, Nonce>, who: Seq<char>) -> Nonce {
    if nonces.contains_key(who) {
        nonces[who]
    } else {
        0
    }
}

/// Low-level state of the chain: the block number and per-account nonces.
pub struct Pallet {
    block_number: BlockNumber,
    nonce: StorageMap<Nonce>,
}

impl Pallet {
    /// The internal map is well formed.
    pub closed spec fn wf(&self) -> bool {
        self.nonce.wf()
    }

    /// The current block number.
    pub closed spec fn current_block(&self) -> BlockNumber {
        self.block_number
    }

    /// The nonces that were written, by account.
    pub closed spec fn nonces(&self) -> Map<Seq<char>, Nonce> {
        self.nonce@
    }

    /// The nonce of `who`.
    pub open spec fn nonce_of(&self, who: Seq<char>) -> Nonce {
        nonce_in(self.nonces(), who)
    }

    /// A system module at block zero with no nonce written.
    pub fn new() -> (p: Self)
        ensures
            p.wf(),
            p.current_block() == 0,
            p.nonces() == Map::<Seq<char>, Nonce>::empty(),
    {
        Pallet { block_number: 0, nonce: StorageMap::new() }
    }

    /// The current block number.
    pub fn block_number(&self) -> (r: BlockNumber)
        ensures
            r == self.current_block(),
    {
        self.block_number
    }

    /// Increments the block number by one.
    pub fn inc_block_number(&mut self)
        requires
            old(self).current_block() < BlockNumber::MAX,
        ensures
            final(self).wf() == old(self).wf(),
            final(self).current_block() == old(self).current_block() + 1,
            final(self).nonces() == old(self).nonces(),
    {
        self.block_number = self.block_number + 1;
    }

    /// The nonce of `who`, zero if it was never written.
    pub fn nonce(&self, who: &AccountId) -> (r: Nonce)
        requires
            self.wf(),
        ensures
            r == self.nonce_of(who@),
    {
        match self.nonce.get(who) {
            Some(n) => *n,
            None => 0,
        }
    }

    /// Increments the nonce of `who` by one.
    pub fn inc_nonce(&mut self, who: &AccountId)
        requires
            old(self).wf(),
            old(self).nonce_of(who@) < Nonce::MAX,
        ensures
            final(self).wf(),
            final(self).current_block() == old(self).current_block(),
            final(self).nonces() == old(self).nonces().insert(
                who@,
                (old(self).nonce_of(who@) + 1) as Nonce,
            ),
    {
        let nonce = self.nonce(who);
        let new_nonce = nonce + 1;
        self.nonce.insert(who.clone(), new_nonce);
    }
}

} // verus!
