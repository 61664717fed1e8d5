//! The store model: accounts keyed by unique identifier and the append-only
//! ledger of transfers, with the operations the service exposes over them.
//!
//! The account table is held sorted by descending identifier — the order
//! account queries answer in — which also makes identifiers unique. Every
//! operation's contract says exactly which inputs succeed, which error each
//! other input draws, and how the store changes.

use vstd::prelude::*;

use crate::accounts::User;
use crate::error_codes::Error;
use crate::protocol::MAX_WINDOW_SIZE;
use crate::transactions::{Transaction, THRESHOLD_BALANCE};

verus! {

/// Identifiers strictly decrease along the sequence; the order account
/// queries answer in, and the reason an identifier appears at most once.
pub open spec fn sorted_desc(s: Seq<User>) -> bool {
    forall|i: int, j: int| 0 <= i < j < s.len() ==> s[i].id > s[j].id
}

/// No identifier appears twice.
pub open spec fn ids_distinct(s: Seq<User>) -> bool {
    forall|i: int, j: int| 0 <= i < j < s.len() ==> s[i].id != s[j].id
}

/// Some row carries this identifier.
pub open spec fn has_id(s: Seq<User>, id: u64) -> bool {
    exists|i: int| 0 <= i < s.len() && (#[trigger] s[i]).id == id
}

/// The index of the row carrying this identifier (unique when identifiers
/// are distinct).
pub open spec fn index_of(s: Seq<User>, id: u64) -> int {
    choose|i: int| 0 <= i < s.len() && (#[trigger] s[i]).id == id
}

/// The balance of the account carrying this identifier.
pub open spec fn balance_of(s: Seq<User>, id: u64) -> u64 {
    s[index_of(s, id)].balance
}

/// A strictly descending table has no repeated identifier.
pub proof fn lemma_sorted_implies_distinct(s: Seq<User>)
    requires
        sorted_desc(s),
    ensures
        ids_distinct(s),
{
}

/// When identifiers are distinct, the row at any index is the row that
/// lookups by its identifier find.
pub proof fn lemma_at_index(s: Seq<User>, i: int)
    requires
        ids_distinct(s),
        0 <= i < s.len(),
    ensures
        has_id(s, s[i].id),
        index_of(s, s[i].id) == i,
        balance_of(s, s[i].id) == s[i].balance,
{
    assert(0 <= i < s.len() && s[i].id == s[i].id);
    let j = index_of(s, s[i].id);
    assert(0 <= j < s.len() && s[j].id == s[i].id);
    if i < j {
        assert(s[i].id != s[j].id);
    } else if j < i {
        assert(s[j].id != s[i].id);
    }
}

/// The store: the account table and the append-only ledger. The store is
/// the sole owner of durable state; every read reflects it at query time.
pub struct Ledger {
    accounts: Vec<User>,
    records: Vec<Transaction>,
}

impl Ledger {
    /// The account table, ordered by descending identifier.
    pub closed spec fn accounts_view(self) -> Seq<User> {
        self.accounts@
    }

    /// The ledger rows in insertion order; the index is the sequence number.
    pub closed spec fn records_view(self) -> Seq<Transaction> {
        self.records@
    }

    /// Well-formedness: the account table is sorted by strictly descending
    /// identifier (so identifiers are unique).
    pub open spec fn wf(self) -> bool {
        sorted_desc(self.accounts_view())
    }

    /// Whether an account with this identifier exists.
    pub open spec fn spec_has(self, id: u64) -> bool {
        has_id(self.accounts_view(), id)
    }

    /// The balance of the account with this identifier.
    pub open spec fn spec_balance(self, id: u64) -> u64 {
        balance_of(self.accounts_view(), id)
    }

    /// What an account query returns, as a function of the store alone: the
    /// one matching account for a given identifier, or
    /// [`Error::SenderDoesNotExist`] when that account is absent; the whole
    /// table — empty when no account exists yet — for an omitted
    /// identifier, which never fails.
    pub open spec fn query_spec(self, id: Option<u64>) -> Result<Seq<User>, Error> {
        match id {
            Some(i) => if has_id(self.accounts_view(), i) {
                Ok(seq![User { id: i, balance: balance_of(self.accounts_view(), i) }])
            } else {
                Err(Error::SenderDoesNotExist)
            },
            None => Ok(self.accounts_view()),
        }
    }

    /// What an existence lookup returns, as a function of the store alone:
    /// the account's balance, or [`Error::DatabaseQueryError`] for an empty
    /// result.
    pub open spec fn existence_spec(self, user_id: u64) -> Result<u64, Error> {
        if self.spec_has(user_id) {
            Ok(self.spec_balance(user_id))
        } else {
            Err(Error::DatabaseQueryError)
        }
    }

    /// What a window query returns, as a function of the store alone: the
    /// most recent `limit` ledger rows, newest first — fewer, down to none,
    /// when the ledger holds fewer. Its one failure is a zero or over-cap
    /// limit, which draws [`Error::WindowLimitExceeded`].
    pub open spec fn window_spec(self, limit: int) -> Result<Seq<Transaction>, Error> {
        let recs = self.records_view();
        if !(1 <= limit <= MAX_WINDOW_SIZE) {
            Err(Error::WindowLimitExceeded)
        } else {
            Ok(
                Seq::new(
                    (if limit <= recs.len() {
                        limit
                    } else {
                        recs.len() as int
                    }) as nat,
                    |j: int| recs[recs.len() - 1 - j],
                ),
            )
        }
    }

    /// How a successful creation changes the store: the new account is
    /// present with its opening balance, every other account is as it was,
    /// and the ledger is untouched.
    pub open spec fn creation_effect(self, post: Ledger, user: User) -> bool {
        &&& post.spec_has(user.id)
        &&& post.spec_balance(user.id) == user.balance
        &&& post.accounts_view().len() == self.accounts_view().len() + 1
        &&& post.records_view() == self.records_view()
        &&& forall|other: u64|
            other != user.id ==> (post.spec_has(other) <==> self.spec_has(other))
        &&& forall|other: u64|
            other != user.id && self.spec_has(other) ==> post.spec_balance(other)
                == self.spec_balance(other)
    }

    /// The inputs on which a transfer succeeds: the sender exists and can
    /// cover the amount while keeping the minimum balance, the receiver
    /// exists, and the credit fits the receiver's balance. A zero amount is
    /// admitted: none of the protocol's decision points rejects it, and the
    /// closed error set holds no kind for it.
    pub open spec fn transfer_admissible(self, tx: Transaction) -> bool {
        &&& self.spec_has(tx.from_id)
        &&& self.spec_balance(tx.from_id) >= tx.amount + THRESHOLD_BALANCE
        &&& self.spec_has(tx.to_id)
        &&& (tx.to_id == tx.from_id || self.spec_balance(tx.to_id) + tx.amount <= u64::MAX)
    }

    /// Which error an inadmissible transfer draws, in the order the
    /// protocol takes its decisions: sender existence, threshold, receiver
    /// existence, then the atomic unit itself.
    pub open spec fn transfer_rejection(self, tx: Transaction) -> Error {
        if !self.spec_has(tx.from_id) {
            Error::SenderDoesNotExist
        } else if self.spec_balance(tx.from_id) < tx.amount + THRESHOLD_BALANCE {
            Error::NotEnoughBalance
        } else if !self.spec_has(tx.to_id) {
            Error::RecipientDoesNotExist
        } else {
            Error::DatabaseQueryError
        }
    }

    /// How a successful transfer changes the store: the amount moves from
    /// sender to receiver (netting out when they are one account), exactly
    /// one ledger row is appended, every other account is as it was, the
    /// sender retains the minimum balance, and the participants' summed
    /// balance is conserved.
    pub open spec fn transfer_effect(self, post: Ledger, tx: Transaction) -> bool {
        &&& post.records_view() == self.records_view().push(tx)
        &&& post.spec_balance(tx.from_id) as int == (if tx.to_id == tx.from_id {
            self.spec_balance(tx.from_id) as int
        } else {
            self.spec_balance(tx.from_id) - tx.amount
        })
        &&& post.spec_balance(tx.to_id) as int == (if tx.to_id == tx.from_id {
            self.spec_balance(tx.to_id) as int
        } else {
            self.spec_balance(tx.to_id) + tx.amount
        })
        &&& forall|other: u64| post.spec_has(other) <==> self.spec_has(other)
        &&& forall|other: u64|
            other != tx.from_id && other != tx.to_id && self.spec_has(other)
                ==> post.spec_balance(other) == self.spec_balance(other)
        // threshold invariant: the sender retains the minimum balance
        &&& post.spec_balance(tx.from_id) >= THRESHOLD_BALANCE
        // conservation: the two balances sum to what they summed to
        &&& post.spec_balance(tx.from_id) + post.spec_balance(tx.to_id) == self.spec_balance(
            tx.from_id,
        ) + self.spec_balance(tx.to_id)
    }

    /// A fresh, empty store.
    pub fn new() -> (ledger: Ledger)
        ensures
            ledger.wf(),
            ledger.accounts_view() == Seq::<User>::empty(),
            ledger.records_view() == Seq::<Transaction>::empty(),
    {
        let ledger = Ledger { accounts: Vec::new(), records: Vec::new() };
        proof {
            assert(ledger.accounts@ =~= Seq::<User>::empty());
            assert(ledger.records@ =~= Seq::<Transaction>::empty());
        }
        ledger
    }

    /// Finds the position of an account row by identifier.
    fn find_index(&self, id: u64) -> (r: Option<usize>)
        ensures
            match r {
                Some(i) => i < self.accounts_view().len() && self.accounts_view()[i as int].id
                    == id,
                None => !has_id(self.accounts_view(), id),
            },
    {
        let n = self.accounts.len();
        let mut k: usize = 0;
        while k < n
            invariant
                k <= n,
                n == self.accounts@.len(),
                forall|j: int| 0 <= j < k ==> (#[trigger] self.accounts@[j]).id != id,
            decreases n - k,
        {
            if self.accounts[k].id == id {
                return Some(k);
            }
            k = k + 1;
        }
        None
    }

    /// Reads one account by identifier, or the whole table when no
    /// identifier is given. Read-only: two queries of the same store state
    /// answer identically (see [`lemma_get_accounts_idempotent`]).
    pub fn get_account_info(&self, id: Option<u64>) -> (r: Result<Vec<User>, Error>)
        requires
            self.wf(),
        ensures
            r is Ok <==> self.query_spec(id) is Ok,
            r matches Ok(v) ==> v@ == self.query_spec(id)->Ok_0,
            r matches Err(e) ==> Err::<Seq<User>, Error>(e) == self.query_spec(id),
    {
        match id {
            Some(wanted) => {
                match self.find_index(wanted) {
                    None => Err(Error::SenderDoesNotExist),
                    Some(idx) => {
                        let row = self.accounts[idx];
                        proof {
                            lemma_sorted_implies_distinct(self.accounts@);
                            lemma_at_index(self.accounts@, idx as int);
                        }
                        let mut found: Vec<User> = Vec::new();
                        found.push(row);
                        proof {
                            assert(found@ =~= self.query_spec(id)->Ok_0);
                        }
                        Ok(found)
                    },
                }
            },
            None => {
                let n = self.accounts.len();
                let mut all: Vec<User> = Vec::new();
                let mut k: usize = 0;
                while k < n
                    invariant
                        k <= n,
                        n == self.accounts@.len(),
                        all@ =~= self.accounts@.take(k as int),
                    decreases n - k,
                {
                    all.push(self.accounts[k]);
                    proof {
                        assert(all@ =~= self.accounts@.take(k + 1 as int));
                    }
                    k = k + 1;
                }
                proof {
                    assert(all@ =~= self.accounts@);
                }
                Ok(all)
            },
        }
    }

    /// Looks an account up by identifier and answers its balance, or
    /// [`Error::DatabaseQueryError`] when the row is absent; the transfer
    /// routine maps that onto the participant the lookup was for.
    pub fn check_existence_of_user(&self, user_id: u64) -> (r: Result<u64, Error>)
        requires
            self.wf(),
        ensures
            r == self.existence_spec(user_id),
    {
        match self.find_index(user_id) {
            None => Err(Error::DatabaseQueryError),
            Some(idx) => {
                proof {
                    lemma_sorted_implies_distinct(self.accounts@);
                    lemma_at_index(self.accounts@, idx as int);
                }
                Ok(self.accounts[idx].balance)
            },
        }
    }

    /// Creates one account. An identifier already present draws
    /// [`Error::AccountExists`] and mutates nothing — creation never touches
    /// an existing account's balance. Success adds exactly the new row and
    /// leaves every other account and the ledger as they were.
    pub fn create_account(&mut self, user: User) -> (r: Result<String, Error>)
        requires
            old(self).wf(),
        ensures
            final(self).wf(),
            // uniqueness: a taken identifier always fails and mutates nothing
            old(self).spec_has(user.id) ==> r == Err::<String, Error>(Error::AccountExists)
                && *final(self) == *old(self),
            !old(self).spec_has(user.id) ==> r is Ok && old(self).creation_effect(
                *final(self),
                user,
            ),
            r is Ok ==> r->Ok_0@ == "Account created successfully"@,
    {
        let ghost s0 = self.accounts@;
        let n = self.accounts.len();
        let mut pos: usize = 0;
        while pos < n && self.accounts[pos].id > user.id
            invariant
                pos <= n,
                n == self.accounts@.len(),
                self.accounts@ == s0,
                forall|k: int| 0 <= k < pos ==> (#[trigger] s0[k]).id > user.id,
            decreases n - pos,
        {
            pos = pos + 1;
        }
        if pos < n && self.accounts[pos].id == user.id {
            proof {
                assert(has_id(s0, user.id));
            }
            return Err(Error::AccountExists);
        }
        proof {
            if has_id(s0, user.id) {
                let i = index_of(s0, user.id);
                assert(0 <= i < s0.len() && s0[i].id == user.id);
                assert(i >= pos);
                if pos < n {
                    assert(s0[pos as int].id < user.id);
                    if pos < i {
                        assert(s0[pos as int].id > s0[i].id);
                    }
                }
                assert(false);
            }
        }
        self.accounts.insert(pos, user);
        proof {
            let t = self.accounts@;
            s0.insert_ensures(pos as int, user);
            assert forall|i: int, j: int| 0 <= i < j < t.len() implies t[i].id > t[j].id by {
                if j < pos {
                    assert(t[i] == s0[i] && t[j] == s0[j]);
                } else if i > pos {
                    assert(t[i] == s0[i - 1] && t[j] == s0[j - 1]);
                } else if i < pos && j == pos {
                    assert(t[i] == s0[i] && t[j] == user);
                } else if i < pos && j > pos {
                    assert(t[i] == s0[i] && t[j] == s0[j - 1]);
                    if j - 1 > i {
                        assert(s0[i].id > s0[j - 1].id);
                    }
                } else if i == pos {
                    assert(t[i] == user && t[j] == s0[j - 1]);
                    assert(s0[pos as int].id < user.id);
                    if j - 1 > pos {
                        assert(s0[pos as int].id > s0[j - 1].id);
                    }
                }
            };
            lemma_sorted_implies_distinct(t);
            lemma_at_index(t, pos as int);
            assert forall|other: u64| other != user.id implies (has_id(t, other) <==> has_id(
                s0,
                other,
            )) by {
                if has_id(s0, other) {
                    let i = index_of(s0, other);
                    if i < pos {
                        assert(t[i] == s0[i]);
                    } else {
                        assert(t[i + 1] == s0[i]);
                    }
                    assert(has_id(t, other));
                }
                if has_id(t, other) {
                    let i = index_of(t, other);
                    if i < pos {
                        assert(s0[i] == t[i]);
                        assert(has_id(s0, other));
                    } else if i == pos {
                        assert(false);
                    } else {
                        assert(s0[i - 1] == t[i]);
                        assert(has_id(s0, other));
                    }
                }
            };
            lemma_sorted_implies_distinct(s0);
            assert forall|other: u64| other != user.id && has_id(s0, other) implies balance_of(
                t,
                other,
            ) == balance_of(s0, other) by {
                let i = index_of(s0, other);
                assert(0 <= i < s0.len() && s0[i].id == other);
                lemma_at_index(s0, i);
                if i < pos {
                    assert(t[i] == s0[i]);
                    lemma_at_index(t, i);
                } else {
                    assert(t[i + 1] == s0[i]);
                    lemma_at_index(t, i + 1);
                }
            };
        }
        Ok("Account created successfully".to_owned())
    }

    /// Reads the most recent `limit` ledger rows, newest first — fewer,
    /// down to none, when the ledger holds fewer. A zero or over-cap limit
    /// draws [`Error::WindowLimitExceeded`] before any store access.
    pub fn get_tx(&self, limit: usize) -> (r: Result<Vec<Transaction>, Error>)
        ensures
            r is Ok <==> self.window_spec(limit as int) is Ok,
            r matches Ok(v) ==> v@ == self.window_spec(limit as int)->Ok_0,
            r matches Err(e) ==> Err::<Seq<Transaction>, Error>(e) == self.window_spec(
                limit as int,
            ),
    {
        if limit == 0 || (limit as u64) > MAX_WINDOW_SIZE {
            return Err(Error::WindowLimitExceeded);
        }
        let len = self.records.len();
        let n = if limit < len {
            limit
        } else {
            len
        };
        let mut latest: Vec<Transaction> = Vec::new();
        let mut k: usize = 0;
        while k < n
            invariant
                k <= n,
                n <= len,
                len == self.records@.len(),
                latest@.len() == k,
                forall|j: int| 0 <= j < k ==> latest@[j] == self.records@[len - 1 - j],
            decreases n - k,
        {
            latest.push(self.records[len - 1 - k]);
            k = k + 1;
        }
        proof {
            assert(latest@ =~= self.window_spec(limit as int)->Ok_0);
        }
        Ok(latest)
    }

    /// One balance transfer, executed as the protocol orders it: sender
    /// existence, threshold, receiver existence, then the atomic
    /// debit/credit/ledger-append. The checks and the mutation read one
    /// store state, so no concurrent debit can slip between the threshold
    /// check and the debit it licenses. Every failure leaves the store
    /// exactly as it was; success moves the amount and appends exactly one
    /// ledger row, and the sender keeps at least [`THRESHOLD_BALANCE`].
    pub fn post_tx(&mut self, tx: Transaction) -> (r: Result<String, Error>)
        requires
            old(self).wf(),
        ensures
            final(self).wf(),
            // exactly the admissible transfers succeed
            r is Ok <==> old(self).transfer_admissible(tx),
            // atomicity: a failed transfer changes nothing, and draws the
            // error of the first protocol step that rejects it
            r is Err ==> *final(self) == *old(self) && r == Err::<String, Error>(
                old(self).transfer_rejection(tx),
            ),
            // what success does to the store
            r is Ok ==> old(self).transfer_effect(*final(self), tx),
            r is Ok ==> r->Ok_0@ == "Balance transfer completed."@,
    {
        proof {
            lemma_sorted_implies_distinct(self.accounts@);
        }
        let from_idx = match self.find_index(tx.from_id) {
            None => {
                return Err(Error::SenderDoesNotExist);
            },
            Some(i) => i,
        };
        proof {
            lemma_at_index(self.accounts@, from_idx as int);
        }
        let from_balance = self.accounts[from_idx].balance;
        if tx.amount > u64::MAX - THRESHOLD_BALANCE || from_balance < tx.amount
            + THRESHOLD_BALANCE {
            return Err(Error::NotEnoughBalance);
        }
        let to_idx = match self.find_index(tx.to_id) {
            None => {
                return Err(Error::RecipientDoesNotExist);
            },
            Some(i) => i,
        };
        proof {
            lemma_at_index(self.accounts@, to_idx as int);
        }
        if tx.to_id == tx.from_id {
            // debit and credit meet on one row; the balance nets out unchanged
            self.records.push(tx);
            return Ok("Balance transfer completed.".to_owned());
        }
        let to_balance = self.accounts[to_idx].balance;
        if to_balance > u64::MAX - tx.amount {
            return Err(Error::DatabaseQueryError);
        }
        let ghost s0 = self.accounts@;
        self.accounts[from_idx] = User { id: tx.from_id, balance: from_balance - tx.amount };
        self.accounts[to_idx] = User { id: tx.to_id, balance: to_balance + tx.amount };
        self.records.push(tx);
        proof {
            let t = self.accounts@;
            assert(from_idx != to_idx);
            assert forall|k: int| 0 <= k < t.len() implies (#[trigger] t[k]).id == s0[k].id by {}
            assert forall|i: int, j: int| 0 <= i < j < t.len() implies t[i].id > t[j].id by {
                assert(s0[i].id > s0[j].id);
            };
            lemma_sorted_implies_distinct(t);
            lemma_at_index(t, from_idx as int);
            lemma_at_index(t, to_idx as int);
            assert forall|other: u64| has_id(t, other) <==> has_id(s0, other) by {
                if has_id(s0, other) {
                    let i = index_of(s0, other);
                    assert(t[i].id == other);
                    assert(has_id(t, other));
                }
                if has_id(t, other) {
                    let i = index_of(t, other);
                    assert(s0[i].id == other);
                    assert(has_id(s0, other));
                }
            };
            assert forall|other: u64|
                other != tx.from_id && other != tx.to_id && has_id(s0, other) implies balance_of(
                t,
                other,
            ) == balance_of(s0, other) by {
                let i = index_of(s0, other);
                assert(0 <= i < s0.len() && s0[i].id == other);
                lemma_at_index(s0, i);
                assert(i != from_idx && i != to_idx);
                assert(t[i] == s0[i]);
                lemma_at_index(t, i);
            };
        }
        Ok("Balance transfer completed.".to_owned())
    }
}

/// Idempotent read: without an intervening transfer, two account queries of
/// the same store answer with identical accounts and balances. The account
/// query's contract ties its result to [`Ledger::query_spec`], a function
/// of the store state alone, so any two results of the same query agree.
pub proof fn lemma_get_accounts_idempotent(
    ledger: Ledger,
    id: Option<u64>,
    first: Result<Seq<User>, Error>,
    second: Result<Seq<User>, Error>,
)
    requires
        first == ledger.query_spec(id),
        second == ledger.query_spec(id),
    ensures
        first == second,
{
}

} // verus!
