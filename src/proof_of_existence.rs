//! The proof-of-existence module: which account owns each claimed content.

use vstd::prelude::*;
use crate::storage::StorageMap;
use crate::support::{Dispatch, DispatchError, DispatchResult};
use crate::types::{AccountId, Content};

verus! {

/// What creating a claim on `claim` for `caller` returns.
pub open spec fn create_result(
    claims: Map<Seq<char>, Seq<char>>,
    caller: Seq<char>,
    claim: Seq<char>,
) -> DispatchResult {
    if claims.contains_key(claim) {
        Err(DispatchError::AlreadyClaimed)
    } else {
        Ok(())
    }
}

/// The claims after `caller` tries to claim `claim`.
pub open spec fn create_claims(
    claims: Map<Seq<char>, Seq<char>>,
    caller: Seq<char>,
    claim: Seq<char>,
) -> Map<Seq<char>, Seq<char>> {
    if claims.contains_key(claim) {
        claims
    } else {
        claims.insert(claim, caller)
    }
}

/// What revoking the claim on `claim` for `caller` returns.
pub open spec fn revoke_result(
    claims: Map<Seq<char>, Seq<char>>,
    caller: Seq<char>,
    claim: Seq<char>,
) -> DispatchResult {
    if !claims.contains_key(claim) {
        Err(DispatchError::ClaimNotFound)
    } else if claims[claim] != caller {
        Err(DispatchError::NotClaimOwner)
    } else {
        Ok(())
    }
}

/// The claims after `caller` tries to revoke the claim on `claim`.
pub open spec fn revoke_claims(
    claims: Map<Seq<char>, Seq<char>>,
    caller: Seq<char>,
    claim: Seq<char>,
) -> Map<Seq<char>, Seq<char>> {
    if revoke_result(claims, caller, claim) is Ok {
        claims.remove(claim)
    } else {
        claims
    }
}

/// The calls of this module that can be dispatched.
pub enum Call {
    /// Claim `claim` for the caller.
    CreateClaim { claim: Content },
    /// Give up the caller's claim on `claim`.
    RevokeClaim { claim: Content },
}

/// What dispatching `call` for `caller` returns.
pub open spec fn call_result(
    claims: Map<Seq<char>, Seq<char>>,
    caller: Seq<char>,
    call: Call,
) -> DispatchResult {
    match call {
        Call::CreateClaim { claim } => create_result(claims, caller, claim@),
        Call::RevokeClaim { claim } => revoke_result(claims, caller, claim@),
    }
}

/// The claims after dispatching `call` for `caller`.
pub open spec fn call_claims(
    claims: Map<Seq<char>, Seq<char>>,
    caller: Seq<char>,
    call: Call,
) -> Map<Seq<char>, Seq<char>> {
    match call {
        Call::CreateClaim { claim } => create_claims(claims, caller, claim@),
        Call::RevokeClaim { claim } => revoke_claims(claims, caller, claim@),
    }
}

/// Records which account owns each claimed content; each content has at
/// most one owner.
pub struct Pallet {
    claims: StorageMap<AccountId>,
}

impl Pallet {
    /// The owner of each claimed content.
    pub closed spec fn claim_map(&self) -> Map<Seq<char>, Seq<char>> {
        self.claims@.map_values(|owner: AccountId| owner@)
    }

    /// A module in which nothing is claimed.
    pub fn new() -> (p: Self)
        ensures
            p.wf(),
            p.claim_map() == Map::<Seq<char>, Seq<char>>::empty(),
    {
        let p = Pallet { claims: StorageMap::new() };
        assert(p.claim_map() =~= Map::<Seq<char>, Seq<char>>::empty());
        p
    }

    /// The owner of `claim`, if it is claimed.
    pub fn get_claim(&self, claim: &Content) -> (r: Option<&AccountId>)
        requires
            self.wf(),
        ensures
            match r {
                Some(owner) => self.claim_map().contains_key(claim@) && self.claim_map()[claim@]
                    == owner@,
                None => !self.claim_map().contains_key(claim@),
            },
    {
        self.claims.get(claim)
    }

    /// Claims `claim` for `caller`. Fails, changing nothing, when the content
    /// is already claimed.
    pub fn create_claim(&mut self, caller: AccountId, claim: Content) -> (r: DispatchResult)
        requires
            old(self).wf(),
        ensures
            final(self).wf(),
            r == create_result(old(self).claim_map(), caller@, claim@),
            final(self).claim_map() == create_claims(old(self).claim_map(), caller@, claim@),
    {
        if self.claims.contains_key(&claim) {
            return Err(DispatchError::AlreadyClaimed);
        }
        let ghost before = self.claims@;
        let ghost (c, o) = (claim@, caller@);
        self.claims.insert(claim, caller);
        assert(self.claim_map() =~= before.map_values(|owner: AccountId| owner@).insert(c, o));
        Ok(())
    }

    /// Revokes the claim of `caller` on `claim`. Fails, changing nothing, when
    /// the content is not claimed or is claimed by another account.
    pub fn revoke_claim(&mut self, caller: AccountId, claim: Content) -> (r: DispatchResult)
        requires
            old(self).wf(),
        ensures
            final(self).wf(),
            r == revoke_result(old(self).claim_map(), caller@, claim@),
            final(self).claim_map() == revoke_claims(old(self).claim_map(), caller@, claim@),
    {
        let owner = match self.get_claim(&claim) {
            Some(owner) => owner,
            None => {
                return Err(DispatchError::ClaimNotFound);
            },
        };
        if *owner != caller {
            return Err(DispatchError::NotClaimOwner);
        }
        let ghost before = self.claims@;
        self.claims.remove(&claim);
        assert(self.claim_map() =~= before.map_values(|owner: AccountId| owner@).remove(claim@));
        Ok(())
    }
}

impl Dispatch for Pallet {
    type Caller = AccountId;
    type Call = Call;

    closed spec fn wf(&self) -> bool {
        self.claims.wf()
    }

    fn dispatch(&mut self, caller: AccountId, call: Call) -> (r: DispatchResult)
        ensures
            r == call_result(old(self).claim_map(), caller@, call),
            final(self).claim_map() == call_claims(old(self).claim_map(), caller@, call),
    {
        match call {
            Call::CreateClaim { claim } => self.create_claim(caller, claim),
            Call::RevokeClaim { claim } => self.revoke_claim(caller, claim),
        }
    }
}

/// Claiming unclaimed content makes the caller its owner; a second claim on
/// it, by anyone, then fails with `AlreadyClaimed` and keeps that owner.
pub proof fn lemma_claim_is_exclusive(
    claims: Map<Seq<char>, Seq<char>>,
    owner: Seq<char>,
    other: Seq<char>,
    claim: Seq<char>,
)
    requires
        !claims.contains_key(claim),
    ensures
        ({
            let after = create_claims(claims, owner, claim);
            &&& create_result(claims, owner, claim) is Ok
            &&& after.contains_key(claim) && after[claim] == owner
            &&& create_result(after, other, claim) == Err::<(), DispatchError>(
                DispatchError::AlreadyClaimed,
            )
            &&& create_claims(after, other, claim) == after
        }),
{
}

/// Only the owner can revoke a claim: another account fails with
/// `NotClaimOwner`, changing nothing, while the owner succeeds and leaves the
/// content unclaimed.
pub proof fn lemma_only_owner_revokes(
    claims: Map<Seq<char>, Seq<char>>,
    owner: Seq<char>,
    non_owner: Seq<char>,
    claim: Seq<char>,
)
    requires
        claims.contains_key(claim),
        claims[claim] == owner,
        non_owner != owner,
    ensures
        revoke_result(claims, non_owner, claim) == Err::<(), DispatchError>(
            DispatchError::NotClaimOwner,
        ),
        revoke_claims(claims, non_owner, claim) == claims,
        revoke_result(claims, owner, claim) is Ok,
        !revoke_claims(claims, owner, claim).contains_key(claim),
{
}

} // verus!
