//! A subject/observer registry: a subject keeps an ordered collection of
//! observer handles and broadcasts an event to all of them.
//!
//! Handles are identity-comparable values rather than borrowed references,
//! so the registry's hold on an observer can never outlive the observer it
//! stands for. Attaching is idempotent by identity, detaching an unattached
//! observer is a no-op, and a broadcast visits exactly the currently
//! attached observers in attachment order. While a broadcast reads the
//! registry through a shared borrow no caller can mutate it, so an observer
//! decided on for this broadcast is never skipped or visited twice.

use vstd::prelude::*;
use vstd::seq_lib::*;

verus! {

/// An observer: an identity-comparable entity that can receive an event.
#[derive(Clone, Copy, PartialEq, Eq, Structural, Debug)]
pub struct ConcreteObserver {
    pub id: i32,
}

impl ConcreteObserver {
    /// Receives an event; the receipt names the observer that was notified.
    pub fn update(&self) -> (receipt: i32)
        ensures
            receipt == self.id,
    {
        self.id
    }
}

/// The subject: owns an ordered collection of observer handles, kept free
/// of duplicates by identity.
pub struct Subject {
    observers: Vec<ConcreteObserver>,
}

impl View for Subject {
    type V = Seq<ConcreteObserver>;

    closed spec fn view(&self) -> Seq<ConcreteObserver> {
        self.observers@
    }
}

impl Subject {
    /// No observer is attached twice: the registry never silently
    /// accumulates a duplicate handle.
    pub open spec fn wf(&self) -> bool {
        self@.no_duplicates()
    }

    /// A fresh subject with no observers attached.
    pub fn new() -> (subject: Subject)
        ensures
            subject@ == Seq::<ConcreteObserver>::empty(),
            subject.wf(),
    {
        Subject { observers: Vec::new() }
    }

    /// The position of the first handle equal to `observer` by identity.
    fn position_of(&self, observer: ConcreteObserver) -> (position: Option<usize>)
        ensures
            self@.index_of_first(observer) == match position {
                Some(i) => Some(i as int),
                None => None::<int>,
            },
    {
        let end = self.observers.len();
        for i in 0..end
            invariant
                end == self@.len(),
                forall|j: int| 0 <= j < i ==> self@[j] != observer,
        {
            if self.observers[i] == observer {
                proof {
                    self@.index_of_first_ensures(observer);
                }
                return Some(i);
            }
        }
        proof {
            assert(!self@.contains(observer));
            self@.index_of_first_ensures(observer);
        }
        None
    }

    /// Appends a handle for `observer` unless one equal by identity is
    /// already attached; a duplicate attach is a no-op, so an observer is
    /// never notified twice for one broadcast.
    pub fn attach(&mut self, observer: ConcreteObserver)
        requires
            old(self).wf(),
        ensures
            final(self).wf(),
            final(self)@ == if old(self)@.contains(observer) {
                old(self)@
            } else {
                old(self)@.push(observer)
            },
    {
        proof {
            self@.index_of_first_ensures(observer);
        }
        if self.position_of(observer).is_none() {
            self.observers.push(observer);
        }
    }

    /// Removes the first handle equal to `observer` by identity; detaching
    /// an observer that is not attached is a no-op, not an error.
    pub fn detach(&mut self, observer: ConcreteObserver)
        requires
            old(self).wf(),
        ensures
            final(self).wf(),
            final(self)@ == old(self)@.remove_value(observer),
    {
        proof {
            self@.index_of_first_ensures(observer);
        }
        match self.position_of(observer) {
            Some(i) => {
                self.observers.remove(i);
                proof {
                    let pre = old(self)@;
                    pre.remove_ensures(i as int);
                    let post = final(self)@;
                    assert forall|p: int, q: int| 0 <= p < q < post.len() implies post[p]
                        != post[q] by {
                        if q < i {
                            assert(post[p] == pre[p] && post[q] == pre[q]);
                        } else if p < i {
                            assert(post[p] == pre[p] && post[q] == pre[q + 1]);
                        } else {
                            assert(post[p] == pre[p + 1] && post[q] == pre[q + 1]);
                        }
                    }
                }
            },
            None => {},
        }
    }

    /// Broadcasts an event: notifies every currently attached observer, in
    /// attachment order, synchronously on the caller's call stack. The
    /// receipts name, in order, exactly the observers that were notified.
    pub fn notify_observers(&self) -> (receipts: Vec<i32>)
        ensures
            receipts@ == self@.map_values(|o: ConcreteObserver| o.id),
    {
        let ghost ids = self@.map_values(|o: ConcreteObserver| o.id);
        let mut receipts: Vec<i32> = Vec::new();
        let end = self.observers.len();
        for i in 0..end
            invariant
                end == self@.len(),
                ids == self@.map_values(|o: ConcreteObserver| o.id),
                receipts@ == ids.take(i as int),
        {
            receipts.push(self.observers[i].update());
            proof {
                assert(receipts@ =~= ids.take(i + 1));
            }
        }
        proof {
            assert(receipts@ =~= ids);
        }
        receipts
    }
}

/// Law: one broadcast notifies each attached observer exactly once. The
/// receipts of [`Subject::notify_observers`] list the attached observers in
/// order, and on a well-formed subject no identity appears twice among
/// them.
pub proof fn lemma_broadcast_notifies_each_once(subject: Subject)
    requires
        subject.wf(),
    ensures
        subject@.map_values(|o: ConcreteObserver| o.id).no_duplicates(),
{
    let f = |o: ConcreteObserver| o.id;
    assert forall|a: ConcreteObserver, b: ConcreteObserver| #[trigger] f(a) == #[trigger] f(
        b,
    ) implies a == b by {
    }
    assert(vstd::relations::injective(f));
    subject@.lemma_no_duplicates_injective(f);
}

} // verus!
