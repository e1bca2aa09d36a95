//! The balances module: funds held by each account, and checked transfers.

use vstd::prelude::*;
use crate::storage::StorageMap;
use crate::support::{Dispatch, DispatchError, DispatchResult};
use crate::types::{AccountId, Balance};

verus! {

/// The balance of `who` in `balances`; an account never written holds zero.
pub open spec fn balance_in(balances: Map<Seq<char>, Balance>, who: Seq<char>) -> Balance {
    if balances.contains_key(who) {
        balances[who]
    } else {
        0
    }
}

/// What a transfer of `amount` from `caller` to `to` returns.
pub open spec fn transfer_result(
    balances: Map<Seq<char>, Balance>,
    caller: Seq<char>,
    to: Seq<char>,
    amount: Balance,
) -> DispatchResult {
    if amount > balance_in(balances, caller) {
        Err(DispatchError::InsufficientFunds)
    } else if balance_in(balances, to) + amount > Balance::MAX {
        Err(DispatchError::Overflow)
    } else {
        Ok(())
    }
}

/// The balances after a transfer of `amount` from `caller` to `to`: both
/// new balances are computed from the balances before, the caller's written
/// first and the receiver's second; nothing changes when the transfer fails.
pub open spec fn transfer_balances(
    balances: Map<Seq<char>, Balance>,
    caller: Seq<char>,
    to: Seq<char>,
    amount: Balance,
) -> Map<Seq<char>, Balance> {
    if transfer_result(balances, caller, to, amount) is Ok {
        balances.insert(caller, (balance_in(balances, caller) - amount) as Balance).insert(
            to,
            (balance_in(balances, to) + amount) as Balance,
        )
    } else {
        balances
    }
}

/// The calls of this module that can be dispatched.
pub enum Call {
    /// Move `amount` from the caller to `to`.
    Transfer { to: AccountId, amount: Balance },
}

/// What dispatching `call` for `caller` returns.
pub open spec fn call_result(
    balances: Map<Seq<char>, Balance>,
    caller: Seq<char>,
    call: Call,
) -> DispatchResult {
    match call {
        Call::Transfer { to, amount } => transfer_result(balances, caller, to@, amount),
    }
}

/// The balances after dispatching `call` for `caller`.
pub open spec fn call_balances(
    balances: Map<Seq<char>, Balance>,
    caller: Seq<char>,
    call: Call,
) -> Map<Seq<char>, Balance> {
    match call {
        Call::Transfer { to, amount } => transfer_balances(balances, caller, to@, amount),
    }
}

/// Keeps track of how much each account holds.
pub struct Pallet {
    balances: StorageMap<Balance>,
}

impl Pallet {
    /// The balances that were written, by account.
    pub closed spec fn balance_map(&self) -> Map<Seq<char>, Balance> {
        self.balances@
    }

    /// The balance of `who`.
    pub open spec fn balance_of(&self, who: Seq<char>) -> Balance {
        balance_in(self.balance_map(), who)
    }

    /// A balances module in which no balance was written.
    pub fn new() -> (p: Self)
        ensures
            p.wf(),
            p.balance_map() == Map::<Seq<char>, Balance>::empty(),
    {
        Pallet { balances: StorageMap::new() }
    }

    /// Sets the balance of `who` to `amount`, whatever it was.
    pub fn set_balance(&mut self, who: &AccountId, amount: Balance)
        requires
            old(self).wf(),
        ensures
            final(self).wf(),
            final(self).balance_map() == old(self).balance_map().insert(who@, amount),
    {
        self.balances.insert(who.clone(), amount);
    }

    /// The balance of `who`, zero if it was never written.
    pub fn balance(&self, who: &AccountId) -> (r: Balance)
        requires
            self.wf(),
        ensures
            r == self.balance_of(who@),
    {
        match self.balances.get(who) {
            Some(b) => *b,
            None => 0,
        }
    }

    /// Moves `amount` from `caller` to `to`. Fails, changing nothing, when the
    /// caller holds less than `amount` or the receiver's balance would overflow.
    pub fn transfer(&mut self, caller: AccountId, to: AccountId, amount: Balance) -> (r:
        DispatchResult)
        requires
            old(self).wf(),
        ensures
            final(self).wf(),
            r == transfer_result(old(self).balance_map(), caller@, to@, amount),
            final(self).balance_map() == transfer_balances(
                old(self).balance_map(),
                caller@,
                to@,
                amount,
            ),
    {
        let caller_balance = self.balance(&caller);
        let to_balance = self.balance(&to);
        let new_caller_balance = match caller_balance.checked_sub(amount) {
            Some(b) => b,
            None => {
                return Err(DispatchError::InsufficientFunds);
            },
        };
        let new_to_balance = match to_balance.checked_add(amount) {
            Some(b) => b,
            None => {
                return Err(DispatchError::Overflow);
            },
        };
        self.balances.insert(caller, new_caller_balance);
        self.balances.insert(to, new_to_balance);
        Ok(())
    }
}

impl Dispatch for Pallet {
    type Caller = AccountId;
    type Call = Call;

    closed spec fn wf(&self) -> bool {
        self.balances.wf()
    }

    fn dispatch(&mut self, caller: AccountId, call: Call) -> (r: DispatchResult)
        ensures
            r == call_result(old(self).balance_map(), caller@, call),
            final(self).balance_map() == call_balances(old(self).balance_map(), caller@, call),
    {
        match call {
            Call::Transfer { to, amount } => self.transfer(caller, to, amount),
        }
    }
}


/// The sum of the balances of `accounts`.
pub open spec fn total_balance(balances: Map<Seq<char>, Balance>, accounts: Seq<Seq<char>>) -> int
    decreases accounts.len(),
{
    if accounts.len() == 0 {
        0
    } else {
        total_balance(balances, accounts.drop_last()) + balance_in(balances, accounts.last())
    }
}

/// A transfer of more than the caller holds fails with `InsufficientFunds`
/// and leaves every balance as it was.
pub proof fn lemma_transfer_beyond_balance_fails(
    balances: Map<Seq<char>, Balance>,
    caller: Seq<char>,
    to: Seq<char>,
    amount: Balance,
)
    requires
        amount > balance_in(balances, caller),
    ensures
        transfer_result(balances, caller, to, amount) == Err::<(), DispatchError>(
            DispatchError::InsufficientFunds,
        ),
        transfer_balances(balances, caller, to, amount) == balances,
{
}

/// After a successful transfer between two distinct accounts the caller
/// holds `amount` less, the receiver `amount` more, every other account the
/// same, and the total over any accounts (listed once each) that include
/// both parties or neither is unchanged.
pub proof fn lemma_transfer_moves_funds(
    balances: Map<Seq<char>, Balance>,
    caller: Seq<char>,
    to: Seq<char>,
    amount: Balance,
    accounts: Seq<Seq<char>>,
)
    requires
        caller != to,
        transfer_result(balances, caller, to, amount) is Ok,
        accounts.no_duplicates(),
        accounts.contains(caller) == accounts.contains(to),
    ensures
        ({
            let after = transfer_balances(balances, caller, to, amount);
            &&& balance_in(after, caller) == balance_in(balances, caller) - amount
            &&& balance_in(after, to) == balance_in(balances, to) + amount
            &&& forall|other: Seq<char>|
                other != caller && other != to ==> #[trigger] balance_in(after, other)
                    == balance_in(balances, other)
            &&& total_balance(after, accounts) == total_balance(balances, accounts)
        }),
{
    lemma_transfer_shifts_total(balances, caller, to, amount, accounts);
}

/// How a successful transfer between distinct accounts changes the total over
/// a list of distinct accounts.
proof fn lemma_transfer_shifts_total(
    balances: Map<Seq<char>, Balance>,
    caller: Seq<char>,
    to: Seq<char>,
    amount: Balance,
    accounts: Seq<Seq<char>>,
)
    requires
        caller != to,
        transfer_result(balances, caller, to, amount) is Ok,
        accounts.no_duplicates(),
    ensures
        total_balance(transfer_balances(balances, caller, to, amount), accounts) == total_balance(
            balances,
            accounts,
        ) - (if accounts.contains(caller) {
            amount as int
        } else {
            0
        }) + (if accounts.contains(to) {
            amount as int
        } else {
            0
        }),
    decreases accounts.len(),
{
    if accounts.len() > 0 {
        let rest = accounts.drop_last();
        let last = accounts.last();
        assert(rest.no_duplicates()) by {
            assert forall|i: int, j: int| 0 <= i < rest.len() && 0 <= j < rest.len() && i != j implies rest[i]
                != rest[j] by {
                assert(rest[i] == accounts[i] && rest[j] == accounts[j]);
            }
        }
        assert forall|x: Seq<char>| #[trigger] accounts.contains(x) == (rest.contains(x) || x == last) by {
            if accounts.contains(x) && x != last {
                let k = choose|k: int| 0 <= k < accounts.len() && accounts[k] == x;
                assert(k != accounts.len() - 1);
                assert(rest[k] == x);
            }
            if rest.contains(x) {
                let k = choose|k: int| 0 <= k < rest.len() && rest[k] == x;
                assert(accounts[k] == x);
            }
            if x == last {
                assert(accounts[accounts.len() - 1] == x);
            }
        }
        assert(!rest.contains(last)) by {
            if rest.contains(last) {
                let k = choose|k: int| 0 <= k < rest.len() && rest[k] == last;
                assert(accounts[k] == accounts[accounts.len() - 1]);
            }
        }
        lemma_transfer_shifts_total(balances, caller, to, amount, rest);
    }
}

} // verus!
