//! Subscriber capability traits and the handles under which registrants
//! are stored inside an event's collections.
//!
//! A handle pairs a shared pointer to the registered instance with a
//! caller-assigned identity token. Two handles stand for the same
//! registration exactly when their tokens are equal; the instance's own
//! contents are never compared.

use vstd::prelude::*;
use vstd::rwlock::RwLock;
use std::sync::Arc;

verus! {

/// A read-only subscriber: its update is invoked without exclusive access
/// to its state.
pub trait Subscriber {
    fn update(&self);
}

/// A mutating subscriber: its update is invoked with exclusive access to
/// its own state.
pub trait SubscriberMut {
    fn update_mut(&mut self);
}

/// A read-only subscriber for the concurrent event: each notification runs
/// as its own unit of work.
pub trait SubscriberAsync {
    fn update(&self);
}

/// A mutating subscriber for the concurrent event.
pub trait SubscriberAsyncMut {
    fn update_mut(&mut self);
}

/// A mutating subscriber whose update reports a value back.
pub trait SubscriberAsyncMutReturn<TReturn> {
    fn update_mut(&mut self) -> TReturn;
}

/// Relies on Arc::clone: the returned pointer shares the same allocation,
/// so it carries the same value.
#[verifier::external_body]
pub(crate) fn arc_clone<T>(v: &Arc<T>) -> (res: Arc<T>)
    ensures
        res == *v,
{
    Arc::clone(v)
}

/// Relies on Arc's Deref impl: dereferencing yields the shared value.
#[verifier::external_body]
pub(crate) fn arc_borrow<T>(v: &Arc<T>) -> (res: &T)
    ensures
        *res == **v,
{
    &**v
}

/// An identity-bearing, shareable reference to a read-only subscriber.
///
/// The registry and any outside holder each keep a clone; all clones refer
/// to the same instance and carry the same identity token.
pub struct SubscriberHandle<S> {
    id: u64,
    ptr: Arc<S>,
}

impl<S> SubscriberHandle<S> {
    /// The identity token this handle was created with.
    pub closed spec fn spec_id(&self) -> u64 {
        self.id
    }

    /// The subscriber instance this handle refers to.
    pub closed spec fn spec_value(&self) -> S {
        *self.ptr
    }

    /// Wraps a subscriber instance under the identity token `id`.
    ///
    /// Tokens tell registrations apart: give instances registered with one
    /// event distinct tokens, or removal will match whichever of the equal
    /// tokens comes first.
    pub fn new(id: u64, value: S) -> (h: Self)
        ensures
            h.spec_id() == id,
            h.spec_value() == value,
    {
        SubscriberHandle { id, ptr: Arc::new(value) }
    }

    /// Reads the identity token.
    pub fn id(&self) -> (i: u64)
        ensures
            i == self.spec_id(),
    {
        self.id
    }

    /// Borrows the shared subscriber instance.
    pub fn get(&self) -> (s: &S)
        ensures
            *s == self.spec_value(),
    {
        arc_borrow(&self.ptr)
    }
}

impl<S> Clone for SubscriberHandle<S> {
    /// A clone refers to the same instance under the same token.
    fn clone(&self) -> (h: Self)
        ensures
            h == *self,
    {
        SubscriberHandle { id: self.id, ptr: arc_clone(&self.ptr) }
    }
}

/// An identity-bearing, shareable reference to a mutating subscriber.
///
/// The instance sits behind an exclusive-access cell: [`take`](Self::take)
/// withdraws it, leaving the cell empty, and [`put`](Self::put) restores
/// it. A `take` that finds the cell empty — the instance is already being
/// accessed elsewhere — reports the violation by returning `None` instead
/// of blocking.
#[verifier::reject_recursive_types(M)]
pub struct MutableSubscriberHandle<M> {
    id: u64,
    cell: Arc<RwLock<Option<M>, spec_fn(Option<M>) -> bool>>,
}

impl<M> MutableSubscriberHandle<M> {
    #[verifier::type_invariant]
    spec fn lock_admits_all(&self) -> bool {
        forall|v: Option<M>| (*self.cell).inv(v)
    }

    /// The identity token this handle was created with.
    pub closed spec fn spec_id(&self) -> u64 {
        self.id
    }

    /// Wraps a mutating subscriber instance under the identity token `id`.
    pub fn new(id: u64, value: M) -> (h: Self)
        ensures
            h.spec_id() == id,
    {
        let lock = RwLock::new(Some(value), Ghost(|v: Option<M>| true));
        MutableSubscriberHandle { id, cell: Arc::new(lock) }
    }

    /// Reads the identity token.
    pub fn id(&self) -> (i: u64)
        ensures
            i == self.spec_id(),
    {
        self.id
    }

    /// Withdraws the instance, taking exclusive access; `None` means the
    /// instance is currently held elsewhere (an exclusive-access
    /// violation from the caller's point of view).
    pub fn take(&self) -> Option<M> {
        proof {
            use_type_invariant(self);
        }
        let (v, handle) = arc_borrow(&self.cell).acquire_write();
        handle.release_write(None);
        v
    }

    /// Restores a previously taken instance. Fails, handing the instance
    /// back, if the cell is occupied again.
    pub fn put(&self, value: M) -> Result<(), M> {
        proof {
            use_type_invariant(self);
        }
        let (v, handle) = arc_borrow(&self.cell).acquire_write();
        match v {
            None => {
                handle.release_write(Some(value));
                Ok(())
            },
            Some(existing) => {
                handle.release_write(Some(existing));
                Err(value)
            },
        }
    }
}

impl<M> Clone for MutableSubscriberHandle<M> {
    /// A clone refers to the same exclusive-access cell under the same
    /// token.
    fn clone(&self) -> (h: Self)
        ensures
            h.spec_id() == self.spec_id(),
    {
        proof {
            use_type_invariant(self);
        }
        MutableSubscriberHandle { id: self.id, cell: arc_clone(&self.cell) }
    }
}

} // verus!
