//! A lazily initialized shared cell with a multi-thread contract: the
//! contained instance is constructed by a supplied factory on first
//! access, exactly once however many callers race for it, and every later
//! access is mediated by a verified reader/writer lock, so no caller ever
//! observes a torn or partially constructed value.
//!
//! The lock's predicate carries two guarantees. The construct-once
//! discipline — the construction count never exceeds one, and it is one
//! exactly when the instance exists — is surfaced by
//! [`SharedCell::init_count`]. And a value invariant, chosen when the
//! cell is made: every factory output and every stored replacement must
//! satisfy it, so every value that ever comes out of the cell satisfies
//! it too, whichever thread put it in.

use vstd::prelude::*;
use vstd::rwlock::RwLock;

verus! {

/// What the lock protects: the instance, once constructed, and the number
/// of times a construction has run.
struct CellState<T> {
    value: Option<T>,
    builds: u64,
}

/// The lock predicate of a cell with value invariant `value_inv`: the
/// construct-once discipline, and every stored instance satisfies
/// `value_inv`.
spec fn once_pred<T>(value_inv: spec_fn(T) -> bool) -> spec_fn(CellState<T>) -> bool {
    |st: CellState<T>|
        {
            &&& st.builds <= 1
            &&& (st.value is Some <==> st.builds == 1)
            &&& (st.value matches Some(t) ==> value_inv(t))
        }
}

/// A shared cell holding at most one instance of `T` for the life of the
/// cell. Shared references to the cell are enough for every operation, so
/// one cell can serve any number of threads; all access goes through its
/// lock, and lock acquisition blocks until the holder releases.
#[verifier::reject_recursive_types(T)]
pub struct SharedCell<T> {
    value_inv: Ghost<spec_fn(T) -> bool>,
    lock: RwLock<CellState<T>, spec_fn(CellState<T>) -> bool>,
}

impl<T> SharedCell<T> {
    /// The invariant every instance stored in this cell satisfies: the
    /// factory's outputs and every replacement are held to it, so every
    /// value the cell hands out satisfies it.
    pub closed spec fn inv(&self) -> spec_fn(T) -> bool {
        self.value_inv@
    }

    /// The cell's lock carries the construct-once discipline for exactly
    /// this cell's value invariant.
    pub closed spec fn wf(&self) -> bool {
        self.lock.pred() == once_pred(self.value_inv@)
    }

    /// A fresh cell: no instance yet, the factory has never run, and
    /// every instance the cell will ever hold must satisfy `inv`.
    pub fn new_with_inv(Ghost(inv): Ghost<spec_fn(T) -> bool>) -> (cell: SharedCell<T>)
        ensures
            cell.wf(),
            cell.inv() == inv,
    {
        SharedCell {
            value_inv: Ghost(inv),
            lock: RwLock::new(CellState { value: None, builds: 0 }, Ghost(once_pred(inv))),
        }
    }

    /// A fresh cell with no constraint on its instances: no instance yet,
    /// the factory has never run.
    pub fn new() -> (cell: SharedCell<T>)
        ensures
            cell.wf(),
            forall|t: T| #[trigger] (cell.inv())(t),
    {
        SharedCell::new_with_inv(Ghost(|t: T| true))
    }

    /// Constructs the instance via `factory` if no instance exists at the
    /// moment this caller holds the lock. Callers racing here serialize on
    /// the lock; whichever arrives first runs the factory, every other one
    /// finds the instance already constructed and runs nothing.
    pub fn get_or_init<F: FnOnce() -> T>(&self, factory: F)
        requires
            self.wf(),
            factory.requires(()),
            forall|t: T| #[trigger] factory.ensures((), t) ==> (self.inv())(t),
    {
        let (mut st, write_handle) = self.lock.acquire_write();
        if st.value.is_none() {
            let v = factory();
            st.value = Some(v);
            st.builds = st.builds + 1;
        }
        write_handle.release_write(st);
    }

    /// Whether the instance exists at the moment of the read; under
    /// concurrency another caller may construct it right afterwards.
    pub fn is_initialized(&self) -> (initialized: bool)
        requires
            self.wf(),
    {
        let read_handle = self.lock.acquire_read();
        let initialized = read_handle.borrow().value.is_some();
        read_handle.release_read();
        initialized
    }

    /// How many times a construction has run: never more than once, on
    /// any interleaving of callers, on any thread — the exactly-once
    /// guarantee of the cell.
    pub fn init_count(&self) -> (count: u64)
        requires
            self.wf(),
        ensures
            count <= 1,
    {
        let read_handle = self.lock.acquire_read();
        let count = read_handle.borrow().builds;
        read_handle.release_read();
        count
    }

    /// Replaces the constructed instance under the write lock and returns
    /// `true`; on a cell whose instance is not yet constructed nothing is
    /// stored — mutation is for after construction — and `false` is
    /// returned. The write is exclusive: no reader or writer runs while
    /// it happens, so no caller observes a partial write.
    pub fn set(&self, value: T) -> (updated: bool)
        requires
            self.wf(),
            (self.inv())(value),
    {
        let (mut st, write_handle) = self.lock.acquire_write();
        let updated = st.value.is_some();
        if updated {
            st.value = Some(value);
        }
        write_handle.release_write(st);
        updated
    }
}

/// Whether `t` is a clone of some value satisfying `inv`.
pub open spec fn clone_of_valid<T: Clone>(inv: spec_fn(T) -> bool, t: T) -> bool {
    exists|s: T| #[trigger] cloned::<T>(s, t) && inv(s)
}

impl<T: Clone> SharedCell<T> {
    /// A clone of the instance as of the moment of the read; `None`
    /// exactly when it is not yet constructed at that moment. The
    /// original of the clone satisfies the cell's value invariant; what a
    /// clone of it is, is `T`'s affair.
    pub fn read_cloned(&self) -> (value: Option<T>)
        requires
            self.wf(),
        ensures
            value matches Some(t) ==> clone_of_valid(self.inv(), t),
    {
        let read_handle = self.lock.acquire_read();
        let value = match &read_handle.borrow().value {
            Some(v) => {
                let c = v.clone();
                proof {
                    assert(cloned::<T>(*v, c) && (self.inv())(*v));
                    assert(clone_of_valid(self.inv(), c));
                }
                Some(c)
            },
            None => None,
        };
        read_handle.release_read();
        value
    }
}

impl<T: Copy> SharedCell<T> {
    /// The shared instance: constructed by `factory` if this caller is
    /// the first, the already constructed one otherwise. The value comes
    /// out under the lock, so it is always a fully constructed instance,
    /// never a partial one, and it satisfies the cell's value invariant —
    /// whichever caller, on whichever thread, put it there.
    pub fn get<F: FnOnce() -> T>(&self, factory: F) -> (value: T)
        requires
            self.wf(),
            factory.requires(()),
            forall|t: T| #[trigger] factory.ensures((), t) ==> (self.inv())(t),
        ensures
            (self.inv())(value),
    {
        let (mut st, write_handle) = self.lock.acquire_write();
        let value = match st.value {
            Some(v) => v,
            None => {
                let v = factory();
                st.value = Some(v);
                st.builds = st.builds + 1;
                v
            },
        };
        write_handle.release_write(st);
        value
    }

    /// A copy of the instance as of the moment of the read; `None` exactly
    /// when it is not yet constructed at that moment. A returned instance
    /// satisfies the cell's value invariant.
    pub fn read(&self) -> (value: Option<T>)
        requires
            self.wf(),
        ensures
            value matches Some(t) ==> (self.inv())(t),
    {
        let read_handle = self.lock.acquire_read();
        let value = read_handle.borrow().value;
        read_handle.release_read();
        value
    }
}

} // verus!
