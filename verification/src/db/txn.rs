//! The ambient transaction of a logical task.
//!
//! A task that begins a transaction scope stores the fresh transaction in a
//! slot. Nested data-access operations borrow the transaction from the slot
//! and give it back when they are done, so that they all run in the same
//! transaction without passing it from hand to hand. Outside any scope the
//! operations run on the shared connection pool.
//!
//! The transaction has one owner at a time: while it is borrowed the slot is
//! empty, and a second borrow is a programming error.

use vstd::prelude::*;

verus! {

/// Why the ambient transaction could not be had.
#[derive(Clone, Copy, Debug, PartialEq, Eq, Structural)]
pub enum TxnError {
    /// The task is not inside a transaction scope.
    NoActiveScope,
    /// The transaction of the innermost scope is borrowed by an operation
    /// that has not given it back, or was committed.
    AlreadyBorrowed,
}

/// The transaction scopes of one logical task, outermost first. Each scope
/// has a slot that holds its transaction while nobody borrows it.
pub struct SharedTxn<R> {
    scopes: Vec<Option<R>>,
}

/// Whether some scope is active.
pub open spec fn in_scope<R>(scopes: Seq<Option<R>>) -> bool {
    scopes.len() > 0
}

/// What the slot of the innermost scope holds; nothing outside any scope.
pub open spec fn slot<R>(scopes: Seq<Option<R>>) -> Option<R> {
    if in_scope(scopes) {
        scopes.last()
    } else {
        None
    }
}

/// Whether a scope is active whose transaction is away from its slot.
pub open spec fn contended<R>(scopes: Seq<Option<R>>) -> bool {
    in_scope(scopes) && slot(scopes) is None
}

/// The scopes after the innermost slot was emptied.
pub open spec fn taken<R>(scopes: Seq<Option<R>>) -> Seq<Option<R>> {
    if in_scope(scopes) {
        scopes.update(scopes.len() - 1, None)
    } else {
        scopes
    }
}

/// The scopes after `txn` was put into the innermost slot.
pub open spec fn returned<R>(scopes: Seq<Option<R>>, txn: R) -> Seq<Option<R>> {
    if in_scope(scopes) {
        scopes.update(scopes.len() - 1, Some(txn))
    } else {
        scopes
    }
}

impl<R> View for SharedTxn<R> {
    type V = Seq<Option<R>>;

    closed spec fn view(&self) -> Seq<Option<R>> {
        self.scopes@
    }
}

impl<R> SharedTxn<R> {
    /// The state of a task that has begun no scope.
    pub fn new() -> (shared: SharedTxn<R>)
        ensures
            shared@ == Seq::<Option<R>>::empty(),
    {
        SharedTxn { scopes: Vec::new() }
    }

    /// Whether the task is inside a transaction scope.
    pub fn is_active(&self) -> (active: bool)
        ensures
            active == in_scope(self@),
    {
        self.scopes.len() > 0
    }

    /// Whether the transaction of the innermost scope is away from its slot.
    pub fn is_borrowed(&self) -> (borrowed: bool)
        ensures
            borrowed == contended(self@),
    {
        let depth = self.scopes.len();
        depth > 0 && self.scopes[depth - 1].is_none()
    }
}

/// Begins a scope that owns the transaction `started`, if starting it
/// succeeded; if it failed, hands the failure on and begins nothing.
pub fn begin<R, E>(shared: &mut SharedTxn<R>, started: Result<R, E>) -> (res: Result<(), E>)
    ensures
        match started {
            Ok(txn) => res is Ok && final(shared)@ == old(shared)@.push(Some(txn)),
            Err(error) => res == Err::<(), E>(error) && final(shared)@ == old(shared)@,
        },
{
    match started {
        Ok(txn) => {
            shared.scopes.push(Some(txn));
            Ok(())
        },
        Err(error) => Err(error),
    }
}

/// Ends the innermost scope and returns the transaction that its slot still
/// held, which was not committed. Outside any scope nothing changes.
pub fn end<R>(shared: &mut SharedTxn<R>) -> (left: Option<R>)
    ensures
        left == slot(old(shared)@),
        final(shared)@ == if in_scope(old(shared)@) {
            old(shared)@.drop_last()
        } else {
            old(shared)@
        },
{
    match shared.scopes.pop() {
        Some(left) => left,
        None => None,
    }
}

/// Takes the transaction out of the innermost slot, for the caller to
/// commit it. The slot stays empty for the rest of the scope.
pub fn commit<R>(shared: &mut SharedTxn<R>) -> (res: Result<R, TxnError>)
    ensures
        match res {
            Ok(txn) => slot(old(shared)@) == Some(txn) && final(shared)@ == taken(old(shared)@),
            Err(TxnError::NoActiveScope) => !in_scope(old(shared)@) && final(shared)@ == old(shared)@,
            Err(TxnError::AlreadyBorrowed) => contended(old(shared)@) && final(shared)@ == old(shared)@,
        },
{
    match try_borrow_shared_txn(shared) {
        Ok(Some(txn)) => Ok(txn),
        Ok(None) => Err(TxnError::AlreadyBorrowed),
        Err(error) => Err(error),
    }
}

/// Takes whatever the innermost slot holds and leaves the slot empty.
/// Outside any scope there is no slot to take from.
pub fn try_borrow_shared_txn<R>(shared: &mut SharedTxn<R>) -> (res: Result<Option<R>, TxnError>)
    ensures
        match res {
            Ok(txn) => in_scope(old(shared)@) && txn == slot(old(shared)@) && final(shared)@
                == taken(old(shared)@),
            Err(error) => error == TxnError::NoActiveScope && !in_scope(old(shared)@) && final(shared)@ == old(shared)@,
        },
{
    let depth = shared.scopes.len();
    if depth > 0 {
        Ok(shared.scopes[depth - 1].take())
    } else {
        Err(TxnError::NoActiveScope)
    }
}

/// Puts `txn` back into the innermost slot, whatever the slot holds.
pub fn retrieve_shared_txn<R>(shared: &mut SharedTxn<R>, txn: R)
    requires
        in_scope(old(shared)@),
    ensures
        final(shared)@ == returned(old(shared)@, txn),
{
    let depth = shared.scopes.len();
    shared.scopes[depth - 1] = Some(txn);
}

/// What a data-access operation runs its statements on.
pub enum Executor<P, R> {
    /// The shared connection pool, which any number of operations may use at
    /// once.
    Pool(P),
    /// The ambient transaction, owned by this executor until it is released.
    Txn(R),
}

impl<P, R> Executor<P, R> {
    /// Whether this executor holds the ambient transaction.
    pub fn is_txn(&self) -> (yes: bool)
        ensures
            yes == (*self is Txn),
    {
        match self {
            Executor::Pool(_) => false,
            Executor::Txn(_) => true,
        }
    }

    /// Finishes the use of this executor: the ambient transaction goes back
    /// into the innermost slot, a pool handle is dropped.
    pub fn release(self, shared: &mut SharedTxn<R>)
        requires
            self is Txn ==> in_scope(old(shared)@),
        ensures
            final(shared)@ == match self {
                Executor::Pool(_) => old(shared)@,
                Executor::Txn(txn) => returned(old(shared)@, txn),
            },
    {
        match self {
            Executor::Pool(_) => {},
            Executor::Txn(txn) => retrieve_shared_txn(shared, txn),
        }
    }
}

/// Hands out executors: the ambient transaction inside a scope, the pool
/// outside any scope.
pub struct ExecutorHolder<P> {
    pool: P,
}

impl<P: Clone> ExecutorHolder<P> {
    /// The pool that this holder falls back to.
    pub closed spec fn pool(&self) -> P {
        self.pool
    }

    /// A holder that falls back to `pool`.
    pub fn new(pool: P) -> (holder: ExecutorHolder<P>)
        ensures
            holder.pool() == pool,
    {
        ExecutorHolder { pool }
    }

    /// Borrows the ambient transaction if the task is inside a scope, and
    /// hands out the pool if it is not.
    ///
    /// Inside a scope whose transaction is already borrowed there is nothing
    /// to hand out: the caller must not ask (see [`Self::try_borrow`]).
    pub fn borrow<R>(&self, shared: &mut SharedTxn<R>) -> (executor: Executor<P, R>)
        requires
            !contended(old(shared)@),
        ensures
            !in_scope(old(shared)@) ==> executor is Pool,
            match executor {
                Executor::Pool(pool) => !in_scope(old(shared)@) && cloned(self.pool(), pool)
                    && final(shared)@ == old(shared)@,
                Executor::Txn(txn) => slot(old(shared)@) == Some(txn) && final(shared)@ == taken(old(shared)@),
            },
    {
        match try_borrow_shared_txn(shared) {
            Ok(Some(txn)) => Executor::Txn(txn),
            Ok(None) => {
                proof {
                    assert(false);
                }
                Executor::Pool(self.pool.clone())
            },
            Err(_) => Executor::Pool(self.pool.clone()),
        }
    }

    /// Like [`Self::borrow`], but reports a transaction that is already
    /// borrowed as an error and leaves the scopes as they are.
    pub fn try_borrow<R>(&self, shared: &mut SharedTxn<R>) -> (res: Result<
        Executor<P, R>,
        TxnError,
    >)
        ensures
            !in_scope(old(shared)@) ==> res matches Ok(Executor::Pool(_)),
            match res {
                Ok(Executor::Pool(pool)) => !in_scope(old(shared)@) && cloned(self.pool(), pool)
                    && final(shared)@ == old(shared)@,
                Ok(Executor::Txn(txn)) => slot(old(shared)@) == Some(txn) && final(shared)@
                    == taken(old(shared)@),
                Err(error) => error == TxnError::AlreadyBorrowed && contended(old(shared)@)
                    && final(shared)@ == old(shared)@,
            },
    {
        if shared.is_borrowed() {
            Err(TxnError::AlreadyBorrowed)
        } else {
            Ok(self.borrow(shared))
        }
    }
}

/// The ambient transaction has one borrower at a time, and survives the
/// borrow: while it is borrowed the next borrow finds the slot empty, and
/// once it is released the scopes are as they were, so that the next borrow
/// hands out the same transaction.
pub proof fn lemma_exclusive_borrow<R>(scopes: Seq<Option<R>>, txn: R)
    requires
        slot(scopes) == Some(txn),
    ensures
        contended(taken(scopes)),
        returned(taken(scopes), txn) == scopes,
        slot(returned(taken(scopes), txn)) == Some(txn),
{
}

/// A scope that ends leaves the scopes around it as they were when it
/// began, whether or not its transaction is in its slot.
pub proof fn lemma_scope_ends_where_it_began<R>(scopes: Seq<Option<R>>, txn: R)
    ensures
        scopes.push(Some(txn)).drop_last() == scopes,
        taken(scopes.push(Some(txn))).drop_last() == scopes,
        slot(scopes.push(Some(txn))) == Some(txn),
{
}

/// Outside any scope nothing is ever contended: a borrow there cannot fail.
pub proof fn lemma_no_contention_outside_scope<R>(scopes: Seq<Option<R>>)
    requires
        !in_scope(scopes),
    ensures
        !contended(scopes),
        slot(scopes) is None,
        taken(scopes) == scopes,
{
}

} // verus!
