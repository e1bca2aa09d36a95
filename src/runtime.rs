//! The runtime: one instance of each module, call routing, and block execution.

use vstd::prelude::*;
use crate::balances;
use crate::proof_of_existence;
use crate::support::{Dispatch, DispatchError, DispatchResult};
use crate::system::{self, nonce_in};
use crate::types::{AccountId, Balance, Block, BlockNumber, Content, Extrinsic, Nonce};

verus! {

/// The calls exposed to the outside world: one variant per module, wrapping
/// that module's own calls.
pub enum RuntimeCall {
    Balances(balances::Call),
    ProofOfExistence(proof_of_existence::Call),
}

/// A report that the extrinsic at `index` of block `block_number` failed.
#[derive(Clone, Copy, Debug, PartialEq, Eq, Structural)]
pub struct ExtrinsicFailure {
    pub block_number: BlockNumber,
    pub index: usize,
    pub error: DispatchError,
}

/// The whole state of the runtime, as values.
pub struct RuntimeState {
    pub block_number: BlockNumber,
    pub nonces: Map<Seq<char>, Nonce>,
    pub balances: Map<Seq<char>, Balance>,
    pub claims: Map<Seq<char>, Seq<char>>,
}

/// What dispatching `call` for `caller` in state `s` returns.
pub open spec fn dispatch_result(
    s: RuntimeState,
    caller: Seq<char>,
    call: RuntimeCall,
) -> DispatchResult {
    match call {
        RuntimeCall::Balances(c) => balances::call_result(s.balances, caller, c),
        RuntimeCall::ProofOfExistence(c) => proof_of_existence::call_result(s.claims, caller, c),
    }
}

/// The state after dispatching `call` for `caller` in state `s`: only the
/// module that owns the call changes.
pub open spec fn dispatch_state(
    s: RuntimeState,
    caller: Seq<char>,
    call: RuntimeCall,
) -> RuntimeState {
    match call {
        RuntimeCall::Balances(c) => RuntimeState {
            balances: balances::call_balances(s.balances, caller, c),
            ..s
        },
        RuntimeCall::ProofOfExistence(c) => RuntimeState {
            claims: proof_of_existence::call_claims(s.claims, caller, c),
            ..s
        },
    }
}

/// The state after the nonce of `who` is incremented.
pub open spec fn bump_nonce(s: RuntimeState, who: Seq<char>) -> RuntimeState {
    RuntimeState { nonces: s.nonces.insert(who, (nonce_in(s.nonces, who) + 1) as Nonce), ..s }
}

/// The state after one extrinsic: the caller's nonce is incremented, then the
/// call is dispatched, whether it succeeds or not.
pub open spec fn apply_extrinsic(s: RuntimeState, x: Extrinsic) -> RuntimeState {
    dispatch_state(bump_nonce(s, x.caller@), x.caller@, x.call)
}

/// The state after the extrinsics `xs`, applied in order.
pub open spec fn apply_extrinsics(s: RuntimeState, xs: Seq<Extrinsic>) -> RuntimeState
    decreases xs.len(),
{
    if xs.len() == 0 {
        s
    } else {
        apply_extrinsic(apply_extrinsics(s, xs.drop_last()), xs.last())
    }
}

/// The failures reported while applying `xs` in order from state `s`, in
/// block `number`: one for each extrinsic whose call fails, in order.
pub open spec fn failures(s: RuntimeState, xs: Seq<Extrinsic>, number: BlockNumber) -> Seq<
    ExtrinsicFailure,
>
    decreases xs.len(),
{
    if xs.len() == 0 {
        Seq::empty()
    } else {
        let before = apply_extrinsics(s, xs.drop_last());
        let earlier = failures(s, xs.drop_last(), number);
        let x = xs.last();
        match dispatch_result(bump_nonce(before, x.caller@), x.caller@, x.call) {
            Ok(_) => earlier,
            Err(e) => earlier.push(
                ExtrinsicFailure { block_number: number, index: (xs.len() - 1) as usize, error: e },
            ),
        }
    }
}

/// The main runtime, holding one instance of each module.
pub struct Runtime {
    system: system::Pallet,
    balances: balances::Pallet,
    proof_of_existence: proof_of_existence::Pallet,
}

impl View for Runtime {
    type V = RuntimeState;

    closed spec fn view(&self) -> RuntimeState {
        RuntimeState {
            block_number: self.system.current_block(),
            nonces: self.system.nonces(),
            balances: self.balances.balance_map(),
            claims: self.proof_of_existence.claim_map(),
        }
    }
}

impl Runtime {
    /// A runtime at block zero with every module empty.
    pub fn new() -> (r: Self)
        ensures
            r.wf(),
            r@.block_number == 0,
            r@.nonces == Map::<Seq<char>, Nonce>::empty(),
            r@.balances == Map::<Seq<char>, Balance>::empty(),
            r@.claims == Map::<Seq<char>, Seq<char>>::empty(),
    {
        Runtime {
            system: system::Pallet::new(),
            balances: balances::Pallet::new(),
            proof_of_existence: proof_of_existence::Pallet::new(),
        }
    }
}

impl Runtime {
    /// The current block number.
    pub fn block_number(&self) -> (r: BlockNumber)
        ensures
            r == self@.block_number,
    {
        self.system.block_number()
    }

    /// The nonce of `who`, zero if no extrinsic of theirs was processed.
    pub fn nonce(&self, who: &AccountId) -> (r: Nonce)
        requires
            self.wf(),
        ensures
            r == nonce_in(self@.nonces, who@),
    {
        self.system.nonce(who)
    }

    /// The balance of `who`, zero if it was never written.
    pub fn balance(&self, who: &AccountId) -> (r: Balance)
        requires
            self.wf(),
        ensures
            r == balances::balance_in(self@.balances, who@),
    {
        self.balances.balance(who)
    }

    /// The owner of `claim`, if it is claimed.
    pub fn get_claim(&self, claim: &Content) -> (r: Option<&AccountId>)
        requires
            self.wf(),
        ensures
            match r {
                Some(owner) => self@.claims.contains_key(claim@) && self@.claims[claim@] == owner@,
                None => !self@.claims.contains_key(claim@),
            },
    {
        self.proof_of_existence.get_claim(claim)
    }

    /// Sets the balance of `who` to `amount`, outside of any block: the way
    /// initial funds are put in place.
    pub fn set_balance(&mut self, who: &AccountId, amount: Balance)
        requires
            old(self).wf(),
        ensures
            final(self).wf(),
            final(self)@ == (RuntimeState {
                balances: old(self)@.balances.insert(who@, amount),
                ..old(self)@
            }),
    {
        self.balances.set_balance(who, amount);
    }

    /// Executes `block`. The block number is incremented first, and stays
    /// incremented even when the block is then refused for carrying another
    /// number. Otherwise each extrinsic is applied in order, its caller's nonce
    /// incremented whether or not its call succeeds; a failing call is reported
    /// in the returned list and does not stop the block.
    pub fn execute_block(&mut self, block: Block) -> (r: Result<
        Vec<ExtrinsicFailure>,
        DispatchError,
    >)
        requires
            old(self).wf(),
            old(self)@.block_number < BlockNumber::MAX,
            forall|i: int|
                0 <= i < block.extrinsics@.len() ==> nonce_in(
                    old(self)@.nonces,
                    #[trigger] block.extrinsics@[i].caller@,
                ) + block.extrinsics@.len() <= Nonce::MAX,
        ensures
            final(self).wf(),
            ({
                let started = RuntimeState {
                    block_number: (old(self)@.block_number + 1) as BlockNumber,
                    ..old(self)@
                };
                if block.header.block_number != started.block_number {
                    &&& r == Err::<Vec<ExtrinsicFailure>, DispatchError>(
                        DispatchError::BlockNumberMismatch,
                    )
                    &&& final(self)@ == started
                } else {
                    &&& r is Ok
                    &&& r->Ok_0@ == failures(started, block.extrinsics@, block.header.block_number)
                    &&& final(self)@ == apply_extrinsics(started, block.extrinsics@)
                }
            }),
    {
        self.system.inc_block_number();
        if self.system.block_number() != block.header.block_number {
            return Err(DispatchError::BlockNumberMismatch);
        }
        let number = block.header.block_number;
        let ghost started = self@;
        let ghost xs = block.extrinsics@;
        let mut reported: Vec<ExtrinsicFailure> = Vec::new();
        let mut i: usize = 0;
        for ext in it: block.extrinsics.into_iter()
            invariant
                it.seq() == xs,
                i == it.index(),
                i <= xs.len(),
                self.wf(),
                self@ == apply_extrinsics(started, xs.take(i as int)),
                reported@ == failures(started, xs.take(i as int), number),
                forall|a: Seq<char>|
                    #[trigger] nonce_in(self@.nonces, a) <= nonce_in(started.nonces, a) + i,
                forall|j: int|
                    0 <= j < xs.len() ==> nonce_in(started.nonces, #[trigger] xs[j].caller@)
                        + xs.len() <= Nonce::MAX,
        {
            proof {
                assert(xs.take(i + 1).drop_last() =~= xs.take(i as int));
                assert(xs.take(i + 1).last() == xs[i as int]);
            }
            assert(ext == xs[i as int]);
            let crate::support::Extrinsic { caller, call } = ext;
            let ghost before = self@;
            assert(nonce_in(before.nonces, caller@) < Nonce::MAX);
            self.system.inc_nonce(&caller);
            let result = self.dispatch(caller, call);
            proof {
                assert forall|a: Seq<char>|
                    #[trigger] nonce_in(self@.nonces, a) <= nonce_in(started.nonces, a) + i + 1 by {
                    assert(nonce_in(before.nonces, a) <= nonce_in(started.nonces, a) + i);
                }
            }
            match result {
                Ok(()) => {},
                Err(error) => {
                    reported.push(ExtrinsicFailure { block_number: number, index: i, error });
                },
            }
            i = i + 1;
        }
        proof {
            assert(xs.take(xs.len() as int) =~= xs);
        }
        Ok(reported)
    }
}

impl Dispatch for Runtime {
    type Caller = AccountId;
    type Call = RuntimeCall;

    closed spec fn wf(&self) -> bool {
        &&& self.system.wf()
        &&& self.balances.wf()
        &&& self.proof_of_existence.wf()
    }

    fn dispatch(&mut self, caller: AccountId, runtime_call: RuntimeCall) -> (r: DispatchResult)
        ensures
            r == dispatch_result(old(self)@, caller@, runtime_call),
            final(self)@ == dispatch_state(old(self)@, caller@, runtime_call),
    {
        match runtime_call {
            RuntimeCall::Balances(call) => self.balances.dispatch(caller, call),
            RuntimeCall::ProofOfExistence(call) => self.proof_of_existence.dispatch(caller, call),
        }
    }
}

/// Whether the extrinsic `x` names `who`: as its caller, or as the receiver of
/// a transfer.
pub open spec fn names(x: Extrinsic, who: Seq<char>) -> bool {
    ||| x.caller@ == who
    ||| x.call matches RuntimeCall::Balances(balances::Call::Transfer { to, .. }) && to@ == who
}

/// An account is written only by extrinsics that name it: one that was never
/// written, and that none of `xs` names, is still never written after them,
/// so it holds zero and has nonce zero.
pub proof fn lemma_unwritten_account_is_empty(s: RuntimeState, xs: Seq<Extrinsic>, who: Seq<char>)
    requires
        !s.balances.contains_key(who),
        !s.nonces.contains_key(who),
        forall|i: int| 0 <= i < xs.len() ==> !names(#[trigger] xs[i], who),
    ensures
        !apply_extrinsics(s, xs).balances.contains_key(who),
        !apply_extrinsics(s, xs).nonces.contains_key(who),
        balances::balance_in(apply_extrinsics(s, xs).balances, who) == 0,
        nonce_in(apply_extrinsics(s, xs).nonces, who) == 0,
    decreases xs.len(),
{
    if xs.len() > 0 {
        let rest = xs.drop_last();
        assert forall|i: int| 0 <= i < rest.len() implies !names(#[trigger] rest[i], who) by {
            assert(rest[i] == xs[i]);
        }
        lemma_unwritten_account_is_empty(s, rest, who);
        assert(!names(xs[xs.len() - 1], who));
    }
}

/// A transfer that fails for want of funds does not stop the block: the
/// transfer after it, which the balances before the block allow, takes effect
/// as if the first were not there; both callers' nonces are incremented, and
/// only the first extrinsic is reported, with `InsufficientFunds`.
pub proof fn lemma_failed_transfer_does_not_stop_block(
    s: RuntimeState,
    first: Extrinsic,
    second: Extrinsic,
    number: BlockNumber,
)
    requires
        first.call matches RuntimeCall::Balances(balances::Call::Transfer { to, amount }) && amount
            > balances::balance_in(s.balances, first.caller@),
        second.call matches RuntimeCall::Balances(balances::Call::Transfer { to, amount })
            && balances::transfer_result(s.balances, second.caller@, to@, amount) is Ok,
        nonce_in(s.nonces, first.caller@) + 2 <= Nonce::MAX,
        nonce_in(s.nonces, second.caller@) + 2 <= Nonce::MAX,
    ensures
        ({
            let xs = seq![first, second];
            let end = apply_extrinsics(s, xs);
            &&& end.balances == dispatch_state(s, second.caller@, second.call).balances
            &&& end.claims == s.claims
            &&& end.block_number == s.block_number
            &&& forall|a: Seq<char>|
                #[trigger] nonce_in(end.nonces, a) == nonce_in(s.nonces, a) + (if a
                    == first.caller@ {
                    1int
                } else {
                    0
                }) + (if a == second.caller@ {
                    1int
                } else {
                    0
                })
            &&& failures(s, xs, number) == seq![
                ExtrinsicFailure {
                    block_number: number,
                    index: 0,
                    error: DispatchError::InsufficientFunds,
                },
            ]
        }),
{
    let xs = seq![first, second];
    assert(xs.drop_last() =~= seq![first]);
    assert(seq![first].drop_last() =~= Seq::<Extrinsic>::empty());
    assert(apply_extrinsics(s, Seq::<Extrinsic>::empty()) == s);
    let s1 = apply_extrinsic(s, first);
    assert(apply_extrinsics(s, seq![first]) == s1);
    assert(s1.balances == s.balances);
    assert(apply_extrinsics(s, xs) == apply_extrinsic(s1, second));
    assert(failures(s, Seq::<Extrinsic>::empty(), number) == Seq::<ExtrinsicFailure>::empty());
    assert(bump_nonce(s, first.caller@).balances == s.balances);
    assert(dispatch_result(bump_nonce(s, first.caller@), first.caller@, first.call) == Err::<
        (),
        DispatchError,
    >(DispatchError::InsufficientFunds));
    assert(failures(s, seq![first], number) =~= seq![
        ExtrinsicFailure { block_number: number, index: 0, error: DispatchError::InsufficientFunds },
    ]);
    assert(failures(s, xs, number) =~= seq![
        ExtrinsicFailure { block_number: number, index: 0, error: DispatchError::InsufficientFunds },
    ]);
}

} // verus!
