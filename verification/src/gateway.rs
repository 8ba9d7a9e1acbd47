//! The payment transfer gateway.
//!
//! A small ledger of token accounts, each a balance held for an owner, and
//! the fund-movement primitive the subscribe handler invokes. A transfer
//! checks the payer's authorizer and balance and moves the amount, or fails
//! with the reason and moves nothing.

use crate::entities::TokenAccount;
use crate::errors::ErrorCode;
use crate::ids::AccountId;
use crate::model::{has_token_account, token_at, token_ids_unique, token_index};
use vstd::prelude::*;

verus! {

/// An index that holds the account `id` is the index `token_index` picks.
pub proof fn lemma_token_index_is(ts: Seq<TokenAccount>, id: AccountId, i: int)
    requires
        token_ids_unique(ts),
        0 <= i < ts.len(),
        ts[i].id == id,
    ensures
        has_token_account(ts, id),
        token_index(ts, id) == i,
        token_at(ts, id) == ts[i],
{
    assert(has_token_account(ts, id));
    let j = token_index(ts, id);
    assert(0 <= j < ts.len() && ts[j].id == id);
    if i != j {
        if i < j {
            assert(ts[i].id != ts[j].id);
        } else {
            assert(ts[j].id != ts[i].id);
        }
        assert(false);
    }
}

/// What a transfer does to the accounts, and what it returns: the next
/// account state and the outcome, as one atomic step.
pub open spec fn transfer_next(
    ts: Seq<TokenAccount>,
    from: AccountId,
    to: AccountId,
    authority: AccountId,
    amount: u64,
) -> (Seq<TokenAccount>, Result<(), ErrorCode>) {
    if !has_token_account(ts, from) || !has_token_account(ts, to) {
        (ts, Err(ErrorCode::NotFound))
    } else if token_at(ts, from).owner != authority {
        (ts, Err(ErrorCode::Unauthorized))
    } else if token_at(ts, from).balance < amount {
        (ts, Err(ErrorCode::InsufficientFunds))
    } else if from == to {
        (ts, Ok(()))
    } else if token_at(ts, to).balance + amount > u64::MAX {
        (ts, Err(ErrorCode::BalanceOverflow))
    } else {
        let fi = token_index(ts, from);
        let ti = token_index(ts, to);
        let debited = TokenAccount {
            balance: (ts[fi].balance - amount) as u64,
            ..ts[fi]
        };
        let credited = TokenAccount {
            balance: (ts[ti].balance + amount) as u64,
            ..ts[ti]
        };
        (ts.update(fi, debited).update(ti, credited), Ok(()))
    }
}

/// A transfer never creates, removes or re-owns an account: identities and
/// owners are unchanged position by position, and uniqueness is kept.
pub proof fn lemma_transfer_preserves_accounts(
    ts: Seq<TokenAccount>,
    from: AccountId,
    to: AccountId,
    authority: AccountId,
    amount: u64,
)
    requires
        token_ids_unique(ts),
    ensures
        transfer_next(ts, from, to, authority, amount).0.len() == ts.len(),
        forall|i: int|
            0 <= i < ts.len() ==> (#[trigger] transfer_next(ts, from, to, authority, amount).0[i]).id
                == ts[i].id && transfer_next(ts, from, to, authority, amount).0[i].owner
                == ts[i].owner,
        token_ids_unique(transfer_next(ts, from, to, authority, amount).0),
{
}

/// The gateway: the token accounts funds move between.
pub struct TokenGateway {
    pub accounts: Vec<TokenAccount>,
}

impl View for TokenGateway {
    type V = Seq<TokenAccount>;

    open spec fn view(&self) -> Seq<TokenAccount> {
        self.accounts@
    }
}

impl TokenGateway {
    /// A gateway with no accounts yet.
    pub fn new() -> (g: TokenGateway)
        ensures
            g@ =~= Seq::<TokenAccount>::empty(),
    {
        TokenGateway { accounts: Vec::new() }
    }

    /// Finds the position of account `id`, if it is on record.
    fn find_account(&self, id: AccountId) -> (o: Option<usize>)
        ensures
            match o {
                Some(i) => 0 <= i < self@.len() && self@[i as int].id == id,
                None => !has_token_account(self@, id),
            },
    {
        let n: usize = self.accounts.len();
        let mut i: usize = 0;
        while i < n
            invariant
                n == self@.len(),
                0 <= i <= n,
                forall|k: int| 0 <= k < i ==> self@[k].id != id,
            decreases n - i,
        {
            if self.accounts[i].id == id {
                return Some(i);
            }
            i = i + 1;
        }
        None
    }

    /// Opens a token account holding `balance` for `owner`, or fails
    /// `AlreadyExists` if the identity is taken.
    pub fn create_account(&mut self, id: AccountId, owner: AccountId, balance: u64) -> (r: Result<
        (),
        ErrorCode,
    >)
        requires
            token_ids_unique(old(self)@),
        ensures
            token_ids_unique(final(self)@),
            has_token_account(old(self)@, id) ==> r == Err::<(), ErrorCode>(
                ErrorCode::AlreadyExists,
            ) && final(self)@ == old(self)@,
            !has_token_account(old(self)@, id) ==> r == Ok::<(), ErrorCode>(()) && final(self)@
                =~= old(self)@.push(TokenAccount { id, owner, balance }),
    {
        match self.find_account(id) {
            Some(_) => Err(ErrorCode::AlreadyExists),
            None => {
                self.accounts.push(TokenAccount { id, owner, balance });
                Ok(())
            },
        }
    }

    /// The balance of account `id`, if it is on record.
    pub fn balance_of(&self, id: AccountId) -> (o: Option<u64>)
        requires
            token_ids_unique(self@),
        ensures
            match o {
                Some(b) => has_token_account(self@, id) && b == token_at(self@, id).balance,
                None => !has_token_account(self@, id),
            },
    {
        match self.find_account(id) {
            Some(i) => {
                proof {
                    lemma_token_index_is(self@, id, i as int);
                }
                Some(self.accounts[i].balance)
            },
            None => None,
        }
    }

    /// Moves `amount` from `from` to `to` on `authority`'s say-so: the
    /// fund-movement primitive. Fails `NotFound` if either account is
    /// missing, `Unauthorized` if the authorizer does not own the payer
    /// account, `InsufficientFunds` if the payer's balance is short, and
    /// `BalanceOverflow` if the payee's balance cannot take the amount; on
    /// failure nothing moves.
    pub fn transfer(
        &mut self,
        from: AccountId,
        to: AccountId,
        authority: AccountId,
        amount: u64,
    ) -> (r: Result<(), ErrorCode>)
        requires
            token_ids_unique(old(self)@),
        ensures
            final(self)@ == transfer_next(old(self)@, from, to, authority, amount).0,
            r == transfer_next(old(self)@, from, to, authority, amount).1,
            token_ids_unique(final(self)@),
    {
        proof {
            lemma_transfer_preserves_accounts(self@, from, to, authority, amount);
        }
        let fi = match self.find_account(from) {
            Some(i) => i,
            None => {
                return Err(ErrorCode::NotFound);
            },
        };
        let ti = match self.find_account(to) {
            Some(i) => i,
            None => {
                return Err(ErrorCode::NotFound);
            },
        };
        proof {
            lemma_token_index_is(self@, from, fi as int);
            lemma_token_index_is(self@, to, ti as int);
        }
        if self.accounts[fi].owner != authority {
            return Err(ErrorCode::Unauthorized);
        }
        if self.accounts[fi].balance < amount {
            return Err(ErrorCode::InsufficientFunds);
        }
        if fi == ti {
            return Ok(());
        }
        if amount > u64::MAX - self.accounts[ti].balance {
            return Err(ErrorCode::BalanceOverflow);
        }
        let ghost pre = self@;
        let new_from_balance = self.accounts[fi].balance - amount;
        let new_to_balance = self.accounts[ti].balance + amount;
        self.accounts[fi].balance = new_from_balance;
        self.accounts[ti].balance = new_to_balance;
        proof {
            assert(self@ =~= transfer_next(pre, from, to, authority, amount).0);
        }
        Ok(())
    }
}

} // verus!
