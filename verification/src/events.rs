//! The synchronous event: registration, identity-based removal,
//! configuration-driven dispatch on the calling thread, and the clear
//! policy applied after a full notification cycle.

use vstd::prelude::*;
use crate::subscriber::{Subscriber, SubscriberMut, SubscriberHandle, MutableSubscriberHandle};

verus! {

/// Selects which subscriber kinds a full [`Event::notify`] cycle reaches.
#[derive(Clone, Copy, PartialEq, Eq, Structural, Debug)]
pub enum Notify {
    /// Every kind: read-only, mutating, and closure subscribers.
    All,
    /// Only read-only subscribers.
    OnlySubscribers,
    /// Only mutating subscribers.
    OnlySubscribersMut,
    /// Only closure subscribers.
    OnlyFnSubscribers,
}

/// Selects which collections are emptied once a full notification cycle
/// completes. Lifetime counters are never touched by clearing.
#[derive(Clone, Copy, PartialEq, Eq, Structural, Debug)]
pub enum Clear {
    /// Every collection.
    All,
    /// Only the read-only collection.
    OnlySubscribers,
    /// Only the mutating collection.
    OnlySubscribersMut,
    /// Only the closure collection.
    OnlyFuncSubscribers,
    /// No collection: registrations survive the cycle.
    Nothing,
}

/// The per-event policy pair, fixed when the event is created.
#[derive(Clone, Copy, PartialEq, Eq, Structural, Debug)]
pub struct EventConfig {
    /// Which subscriber kinds a full notification cycle reaches.
    pub subscribers_to_notify: Notify,
    /// Which collections are emptied after a full cycle.
    pub clear_after_notification: Clear,
}

impl Default for EventConfig {
    /// The default policy notifies every kind and clears every collection.
    fn default() -> (c: Self)
        ensures
            c.subscribers_to_notify == Notify::All,
            c.clear_after_notification == Clear::All,
    {
        EventConfig { subscribers_to_notify: Notify::All, clear_after_notification: Clear::All }
    }
}

/// Whether the read-only kind is in scope under `n`.
pub open spec fn notifies_subscribers(n: Notify) -> bool {
    n == Notify::All || n == Notify::OnlySubscribers
}

/// Whether the mutating kind is in scope under `n`.
pub open spec fn notifies_subscribers_mut(n: Notify) -> bool {
    n == Notify::All || n == Notify::OnlySubscribersMut
}

/// Whether the closure kind is in scope under `n`.
pub open spec fn notifies_fn_subscribers(n: Notify) -> bool {
    n == Notify::All || n == Notify::OnlyFnSubscribers
}

/// Whether the read-only collection is emptied under `c`.
pub open spec fn clears_subscribers(c: Clear) -> bool {
    c == Clear::All || c == Clear::OnlySubscribers
}

/// Whether the mutating collection is emptied under `c`.
pub open spec fn clears_subscribers_mut(c: Clear) -> bool {
    c == Clear::All || c == Clear::OnlySubscribersMut
}

/// Whether the closure collection is emptied under `c`.
pub open spec fn clears_fn_subscribers(c: Clear) -> bool {
    c == Clear::All || c == Clear::OnlyFuncSubscribers
}

/// The failure conditions of an event operation. Each is fatal for the
/// cycle it interrupts: the cycle is abandoned, never retried.
#[derive(Clone, Copy, PartialEq, Eq, Structural, Debug)]
pub enum EventError {
    /// The handle given to an unsubscribe call matches no registration.
    SubscriberNotFound,
    /// A mutating subscriber was already being accessed when the
    /// dispatcher required exclusive access to it.
    ExclusiveAccessViolation,
    /// A concurrently dispatched unit of work failed; observed at the
    /// join barrier and surfaced to the caller of the notification.
    SubscriberFailure,
}

/// `i` is the position of the first entry of `s` registered under `id`.
pub open spec fn is_first_match<S>(s: Seq<SubscriberHandle<S>>, id: u64, i: int) -> bool {
    &&& 0 <= i < s.len()
    &&& s[i].spec_id() == id
    &&& forall|j: int| 0 <= j < i ==> s[j].spec_id() != id
}

/// `i` is the position of the first entry of `s` registered under `id`
/// (mutating collection).
pub open spec fn is_first_match_mut<M>(
    s: Seq<MutableSubscriberHandle<M>>,
    id: u64,
    i: int,
) -> bool {
    &&& 0 <= i < s.len()
    &&& s[i].spec_id() == id
    &&& forall|j: int| 0 <= j < i ==> s[j].spec_id() != id
}

/// The collection left by removing position `i` with a swap-with-last
/// strategy: order among the remaining entries is not preserved.
pub open spec fn swap_removed<T>(s: Seq<T>, i: int) -> Seq<T> {
    s.update(i, s.last()).drop_last()
}

/// Provides a synchronous mechanism for subscribers to register themselves
/// with a source and be notified of state changes, each kind in
/// registration order, on the calling thread.
///
/// `S`, `M` and `F` are the event's read-only, mutating and closure
/// subscriber types; a closed set of registrant variants can share one
/// event through an enum implementing the capability trait.
#[verifier::reject_recursive_types(M)]
pub struct Event<S: Subscriber, M: SubscriberMut, F: Fn() -> ()> {
    times_subscribers_notified: u32,
    times_subscribers_mut_notified: u32,
    times_func_subscribers_notified: u32,
    subscribers: Vec<SubscriberHandle<S>>,
    subscribers_mut: Vec<MutableSubscriberHandle<M>>,
    fn_subscribers: Vec<F>,
    config: EventConfig,
}

impl<S: Subscriber, M: SubscriberMut, F: Fn() -> ()> Event<S, M, F> {
    /// The registered read-only subscribers, in registration order.
    pub closed spec fn subscribers_seq(&self) -> Seq<SubscriberHandle<S>> {
        self.subscribers@
    }

    /// The registered mutating subscribers, in registration order.
    pub closed spec fn subscribers_mut_seq(&self) -> Seq<MutableSubscriberHandle<M>> {
        self.subscribers_mut@
    }

    /// The registered closure subscribers, in registration order.
    pub closed spec fn fn_subscribers_seq(&self) -> Seq<F> {
        self.fn_subscribers@
    }

    /// The policy pair this event was created with.
    pub closed spec fn spec_config(&self) -> EventConfig {
        self.config
    }

    /// How many cycles have notified the read-only kind (lifetime count,
    /// never reset by clearing).
    pub closed spec fn spec_times_subscribers_notified(&self) -> u32 {
        self.times_subscribers_notified
    }

    /// How many cycles have notified the mutating kind (lifetime count).
    pub closed spec fn spec_times_subscribers_mut_notified(&self) -> u32 {
        self.times_subscribers_mut_notified
    }

    /// How many cycles have notified the closure kind (lifetime count).
    pub closed spec fn spec_times_func_subscribers_notified(&self) -> u32 {
        self.times_func_subscribers_notified
    }

    /// Reads the lifetime count of cycles that notified the read-only
    /// kind.
    #[verifier::when_used_as_spec(spec_times_subscribers_notified)]
    pub fn times_subscribers_notified(&self) -> (n: u32)
        ensures
            n == self.spec_times_subscribers_notified(),
    {
        self.times_subscribers_notified
    }

    /// Reads the lifetime count of cycles that notified the mutating
    /// kind.
    #[verifier::when_used_as_spec(spec_times_subscribers_mut_notified)]
    pub fn times_subscribers_mut_notified(&self) -> (n: u32)
        ensures
            n == self.spec_times_subscribers_mut_notified(),
    {
        self.times_subscribers_mut_notified
    }

    /// Reads the lifetime count of cycles that notified the closure kind.
    #[verifier::when_used_as_spec(spec_times_func_subscribers_notified)]
    pub fn times_func_subscribers_notified(&self) -> (n: u32)
        ensures
            n == self.spec_times_func_subscribers_notified(),
    {
        self.times_func_subscribers_notified
    }

    /// The identity tokens of the read-only collection, in order.
    pub open spec fn subscriber_ids(&self) -> Seq<u64> {
        self.subscribers_seq().map_values(|h: SubscriberHandle<S>| h.spec_id())
    }

    /// The identity tokens of the mutating collection, in order.
    pub open spec fn subscriber_mut_ids(&self) -> Seq<u64> {
        self.subscribers_mut_seq().map_values(|h: MutableSubscriberHandle<M>| h.spec_id())
    }

    /// Every stored closure can be invoked: established at registration,
    /// preserved by every method.
    pub open spec fn wf(&self) -> bool {
        forall|i: int|
            0 <= i < self.fn_subscribers_seq().len() ==> (#[trigger] self.fn_subscribers_seq()[i]).requires(())
    }

    /// Creates an event whose behavior is governed by `config`.
    pub fn new(config: EventConfig) -> (e: Event<S, M, F>)
        ensures
            e.wf(),
            e.subscribers_seq() == Seq::<SubscriberHandle<S>>::empty(),
            e.subscribers_mut_seq() == Seq::<MutableSubscriberHandle<M>>::empty(),
            e.fn_subscribers_seq() == Seq::<F>::empty(),
            e.spec_config() == config,
            e.times_subscribers_notified() == 0,
            e.times_subscribers_mut_notified() == 0,
            e.times_func_subscribers_notified() == 0,
    {
        Event {
            subscribers: Vec::new(),
            subscribers_mut: Vec::new(),
            fn_subscribers: Vec::new(),
            times_subscribers_notified: 0,
            times_subscribers_mut_notified: 0,
            times_func_subscribers_notified: 0,
            config,
        }
    }

    /// Appends a read-only subscriber; nothing else changes. Registering
    /// the same handle twice is allowed: it is then invoked twice per
    /// cycle and matches twice for removal.
    pub fn subscribe(&mut self, subscriber: SubscriberHandle<S>)
        requires
            old(self).wf(),
        ensures
            final(self).wf(),
            final(self).subscribers_seq() == old(self).subscribers_seq().push(subscriber),
            final(self).subscribers_mut_seq() == old(self).subscribers_mut_seq(),
            final(self).fn_subscribers_seq() == old(self).fn_subscribers_seq(),
            final(self).spec_config() == old(self).spec_config(),
            final(self).times_subscribers_notified() == old(self).times_subscribers_notified(),
            final(self).times_subscribers_mut_notified() == old(self).times_subscribers_mut_notified(),
            final(self).times_func_subscribers_notified() == old(self).times_func_subscribers_notified(),
    {
        self.subscribers.push(subscriber);
        proof {
            assert(self.fn_subscribers_seq() == old(self).fn_subscribers_seq());
        }
    }

    /// Appends a mutating subscriber; nothing else changes.
    pub fn subscribe_mut(&mut self, subscriber: MutableSubscriberHandle<M>)
        requires
            old(self).wf(),
        ensures
            final(self).wf(),
            final(self).subscribers_mut_seq() == old(self).subscribers_mut_seq().push(subscriber),
            final(self).subscribers_seq() == old(self).subscribers_seq(),
            final(self).fn_subscribers_seq() == old(self).fn_subscribers_seq(),
            final(self).spec_config() == old(self).spec_config(),
            final(self).times_subscribers_notified() == old(self).times_subscribers_notified(),
            final(self).times_subscribers_mut_notified() == old(self).times_subscribers_mut_notified(),
            final(self).times_func_subscribers_notified() == old(self).times_func_subscribers_notified(),
    {
        self.subscribers_mut.push(subscriber);
        proof {
            assert(self.fn_subscribers_seq() == old(self).fn_subscribers_seq());
        }
    }

    /// Appends a closure subscriber. Closures carry no identity: they can
    /// only be removed en masse by the clear policy.
    pub fn subscribe_as_fn(&mut self, func: F)
        requires
            old(self).wf(),
            func.requires(()),
        ensures
            final(self).wf(),
            final(self).fn_subscribers_seq() == old(self).fn_subscribers_seq().push(func),
            final(self).subscribers_seq() == old(self).subscribers_seq(),
            final(self).subscribers_mut_seq() == old(self).subscribers_mut_seq(),
            final(self).spec_config() == old(self).spec_config(),
            final(self).times_subscribers_notified() == old(self).times_subscribers_notified(),
            final(self).times_subscribers_mut_notified() == old(self).times_subscribers_mut_notified(),
            final(self).times_func_subscribers_notified() == old(self).times_func_subscribers_notified(),
    {
        self.fn_subscribers.push(func);
        proof {
            assert(self.fn_subscribers_seq() == old(self).fn_subscribers_seq().push(func));
        }
    }

    /// All read-only subscribers listening to this event.
    pub fn get_subscribers(&self) -> (v: &Vec<SubscriberHandle<S>>)
        ensures
            v@ == self.subscribers_seq(),
    {
        &self.subscribers
    }

    /// All mutating subscribers listening to this event.
    pub fn get_subscribers_mut(&self) -> (v: &Vec<MutableSubscriberHandle<M>>)
        ensures
            v@ == self.subscribers_mut_seq(),
    {
        &self.subscribers_mut
    }

    /// All closure subscribers listening to this event.
    pub fn get_fn_subscribers(&self) -> (v: &Vec<F>)
        ensures
            v@ == self.fn_subscribers_seq(),
    {
        &self.fn_subscribers
    }

    /// The position of the first read-only entry whose identity matches
    /// `subscriber`, if any.
    fn contains(&self, subscriber: &SubscriberHandle<S>) -> (r: Option<usize>)
        ensures
            match r {
                Some(i) => is_first_match(self.subscribers_seq(), subscriber.spec_id(), i as int),
                None => !self.subscriber_ids().contains(subscriber.spec_id()),
            },
    {
        let id = subscriber.id();
        let n = self.subscribers.len();
        for i in 0..n
            invariant
                n == self.subscribers_seq().len(),
                id == subscriber.spec_id(),
                forall|j: int| 0 <= j < i ==> self.subscribers_seq()[j].spec_id() != id,
        {
            if self.subscribers[i].id() == id {
                return Some(i);
            }
        }
        proof {
            assert forall|k: int|
                0 <= k < self.subscriber_ids().len() implies self.subscriber_ids()[k] != id by {
                assert(self.subscriber_ids()[k] == self.subscribers_seq()[k].spec_id());
            }
        }
        None
    }

    /// The position of the first mutating entry whose identity matches
    /// `subscriber`, if any.
    fn contains_mut(&self, subscriber: &MutableSubscriberHandle<M>) -> (r: Option<usize>)
        ensures
            match r {
                Some(i) => is_first_match_mut(self.subscribers_mut_seq(), subscriber.spec_id(), i as int),
                None => !self.subscriber_mut_ids().contains(subscriber.spec_id()),
            },
    {
        let id = subscriber.id();
        let n = self.subscribers_mut.len();
        for i in 0..n
            invariant
                n == self.subscribers_mut_seq().len(),
                id == subscriber.spec_id(),
                forall|j: int| 0 <= j < i ==> self.subscribers_mut_seq()[j].spec_id() != id,
        {
            if self.subscribers_mut[i].id() == id {
                return Some(i);
            }
        }
        proof {
            assert forall|k: int|
                0 <= k < self.subscriber_mut_ids().len() implies self.subscriber_mut_ids()[k] != id by {
                assert(self.subscriber_mut_ids()[k] == self.subscribers_mut_seq()[k].spec_id());
            }
        }
        None
    }

    /// Removes the first read-only entry whose identity matches
    /// `subscriber`, swapping the last entry into its place; fails with a
    /// not-found error, changing nothing, when no entry matches.
    pub fn unsubscribe(&mut self, subscriber: SubscriberHandle<S>) -> (r: Result<(), EventError>)
        requires
            old(self).wf(),
        ensures
            final(self).wf(),
            final(self).subscribers_mut_seq() == old(self).subscribers_mut_seq(),
            final(self).fn_subscribers_seq() == old(self).fn_subscribers_seq(),
            final(self).spec_config() == old(self).spec_config(),
            final(self).times_subscribers_notified() == old(self).times_subscribers_notified(),
            final(self).times_subscribers_mut_notified() == old(self).times_subscribers_mut_notified(),
            final(self).times_func_subscribers_notified() == old(self).times_func_subscribers_notified(),
            (r is Ok) <==> old(self).subscriber_ids().contains(subscriber.spec_id()),
            match r {
                Ok(u) => exists|i: int|
                    #[trigger] is_first_match(old(self).subscribers_seq(), subscriber.spec_id(), i)
                        && final(self).subscribers_seq() == swap_removed(
                        old(self).subscribers_seq(),
                        i,
                    ),
                Err(e) => {
                    &&& e == EventError::SubscriberNotFound
                    &&& final(self).subscribers_seq() == old(self).subscribers_seq()
                },
            },
    {
        match self.contains(&subscriber) {
            Some(index) => {
                self.subscribers.swap_remove(index);
                proof {
                    assert(self.fn_subscribers_seq() == old(self).fn_subscribers_seq());
                    assert(old(self).subscriber_ids()[index as int] == subscriber.spec_id());
                }
                Ok(())
            },
            None => Err(EventError::SubscriberNotFound),
        }
    }

    /// Removes the first mutating entry whose identity matches
    /// `subscriber`, swapping the last entry into its place; fails with a
    /// not-found error, changing nothing, when no entry matches.
    pub fn unsubscribe_mut(&mut self, subscriber: MutableSubscriberHandle<M>) -> (r: Result<
        (),
        EventError,
    >)
        requires
            old(self).wf(),
        ensures
            final(self).wf(),
            final(self).subscribers_seq() == old(self).subscribers_seq(),
            final(self).fn_subscribers_seq() == old(self).fn_subscribers_seq(),
            final(self).spec_config() == old(self).spec_config(),
            final(self).times_subscribers_notified() == old(self).times_subscribers_notified(),
            final(self).times_subscribers_mut_notified() == old(self).times_subscribers_mut_notified(),
            final(self).times_func_subscribers_notified() == old(self).times_func_subscribers_notified(),
            (r is Ok) <==> old(self).subscriber_mut_ids().contains(subscriber.spec_id()),
            match r {
                Ok(u) => exists|i: int|
                    #[trigger] is_first_match_mut(old(self).subscribers_mut_seq(), subscriber.spec_id(), i)
                        && final(self).subscribers_mut_seq() == swap_removed(
                        old(self).subscribers_mut_seq(),
                        i,
                    ),
                Err(e) => {
                    &&& e == EventError::SubscriberNotFound
                    &&& final(self).subscribers_mut_seq() == old(self).subscribers_mut_seq()
                },
            },
    {
        match self.contains_mut(&subscriber) {
            Some(index) => {
                self.subscribers_mut.swap_remove(index);
                proof {
                    assert(self.fn_subscribers_seq() == old(self).fn_subscribers_seq());
                    assert(old(self).subscriber_mut_ids()[index as int] == subscriber.spec_id());
                }
                Ok(())
            },
            None => Err(EventError::SubscriberNotFound),
        }
    }

    /// Invokes every read-only subscriber in registration order on the
    /// calling thread; if at least one is registered, raises the
    /// read-only counter by exactly one for the whole batch. Collections
    /// are untouched.
    pub fn notify_subscribers(&mut self)
        requires
            old(self).wf(),
            old(self).subscribers_seq().len() > 0 ==> old(self).times_subscribers_notified()
                < u32::MAX,
        ensures
            final(self).wf(),
            final(self).subscribers_seq() == old(self).subscribers_seq(),
            final(self).subscribers_mut_seq() == old(self).subscribers_mut_seq(),
            final(self).fn_subscribers_seq() == old(self).fn_subscribers_seq(),
            final(self).spec_config() == old(self).spec_config(),
            final(self).times_subscribers_notified() as int == old(self).times_subscribers_notified() as int
                + (if old(self).subscribers_seq().len() > 0 {
                1int
            } else {
                0int
            }),
            final(self).times_subscribers_mut_notified() == old(self).times_subscribers_mut_notified(),
            final(self).times_func_subscribers_notified() == old(self).times_func_subscribers_notified(),
    {
        if self.subscribers.is_empty() {
            return ;
        }
        let n = self.subscribers.len();
        for i in 0..n
            invariant
                *self == *old(self),
                n == self.subscribers_seq().len(),
        {
            let h = &self.subscribers[i];
            h.get().update();
        }
        self.times_subscribers_notified = self.times_subscribers_notified + 1;
        proof {
            assert(self.fn_subscribers_seq() == old(self).fn_subscribers_seq());
        }
    }

    /// Invokes every mutating subscriber in registration order, taking
    /// exclusive access to each for the span of its update. An entry
    /// already held elsewhere aborts the batch with an exclusive-access
    /// violation, leaving the counter untouched; when every update runs,
    /// the mutating counter rises by exactly one (none for an empty
    /// collection, which always succeeds).
    pub fn notify_subscribers_mut(&mut self) -> (r: Result<(), EventError>)
        requires
            old(self).wf(),
            old(self).subscribers_mut_seq().len() > 0 ==> old(self).times_subscribers_mut_notified()
                < u32::MAX,
        ensures
            final(self).wf(),
            final(self).subscribers_seq() == old(self).subscribers_seq(),
            final(self).subscribers_mut_seq() == old(self).subscribers_mut_seq(),
            final(self).fn_subscribers_seq() == old(self).fn_subscribers_seq(),
            final(self).spec_config() == old(self).spec_config(),
            final(self).times_subscribers_notified() == old(self).times_subscribers_notified(),
            final(self).times_func_subscribers_notified() == old(self).times_func_subscribers_notified(),
            old(self).subscribers_mut_seq().len() == 0 ==> r is Ok,
            match r {
                Ok(u) => final(self).times_subscribers_mut_notified() as int == old(self).times_subscribers_mut_notified() as int
                    + (if old(self).subscribers_mut_seq().len() > 0 {
                    1int
                } else {
                    0int
                }),
                Err(e) => {
                    &&& e == EventError::ExclusiveAccessViolation
                    &&& old(self).subscribers_mut_seq().len() > 0
                    &&& final(self).times_subscribers_mut_notified() == old(self).times_subscribers_mut_notified()
                },
            },
    {
        if self.subscribers_mut.is_empty() {
            return Ok(());
        }
        let n = self.subscribers_mut.len();
        for i in 0..n
            invariant
                *self == *old(self),
                old(self).wf(),
                n == self.subscribers_mut_seq().len(),
        {
            let h = &self.subscribers_mut[i];
            match h.take() {
                Some(mut taken) => {
                    taken.update_mut();
                    match h.put(taken) {
                        Ok(u) => {},
                        Err(back) => {
                            proof {
                                assert(self.fn_subscribers_seq() == old(self).fn_subscribers_seq());
                            }
                            return Err(EventError::ExclusiveAccessViolation);
                        },
                    }
                },
                None => {
                    proof {
                        assert(self.fn_subscribers_seq() == old(self).fn_subscribers_seq());
                    }
                    return Err(EventError::ExclusiveAccessViolation);
                },
            }
        }
        self.times_subscribers_mut_notified = self.times_subscribers_mut_notified + 1;
        proof {
            assert(self.fn_subscribers_seq() == old(self).fn_subscribers_seq());
        }
        Ok(())
    }

    /// Invokes every closure subscriber in registration order on the
    /// calling thread; if at least one is registered, raises the closure
    /// counter by exactly one for the whole batch. Collections are
    /// untouched.
    pub fn notify_fn_subscribers(&mut self)
        requires
            old(self).wf(),
            old(self).fn_subscribers_seq().len() > 0 ==> old(self).times_func_subscribers_notified()
                < u32::MAX,
        ensures
            final(self).wf(),
            final(self).subscribers_seq() == old(self).subscribers_seq(),
            final(self).subscribers_mut_seq() == old(self).subscribers_mut_seq(),
            final(self).fn_subscribers_seq() == old(self).fn_subscribers_seq(),
            final(self).spec_config() == old(self).spec_config(),
            final(self).times_subscribers_notified() == old(self).times_subscribers_notified(),
            final(self).times_subscribers_mut_notified() == old(self).times_subscribers_mut_notified(),
            final(self).times_func_subscribers_notified() as int == old(self).times_func_subscribers_notified() as int
                + (if old(self).fn_subscribers_seq().len() > 0 {
                1int
            } else {
                0int
            }),
    {
        if self.fn_subscribers.is_empty() {
            return ;
        }
        let n = self.fn_subscribers.len();
        for i in 0..n
            invariant
                *self == *old(self),
                n == self.fn_subscribers_seq().len(),
                self.wf(),
        {
            let f = &self.fn_subscribers[i];
            f();
        }
        self.times_func_subscribers_notified = self.times_func_subscribers_notified + 1;
        proof {
            assert(self.fn_subscribers_seq() == old(self).fn_subscribers_seq());
        }
    }

    /// Empties the collections the clear policy names; counters and the
    /// configuration are untouched, and a clear-nothing policy leaves
    /// the whole event as it was.
    fn try_clear(&mut self)
        requires
            old(self).wf(),
        ensures
            final(self).wf(),
            old(self).spec_config().clear_after_notification == Clear::Nothing ==> *final(self)
                == *old(self),
            final(self).spec_config() == old(self).spec_config(),
            final(self).times_subscribers_notified() == old(self).times_subscribers_notified(),
            final(self).times_subscribers_mut_notified() == old(self).times_subscribers_mut_notified(),
            final(self).times_func_subscribers_notified() == old(self).times_func_subscribers_notified(),
            final(self).subscribers_seq() == (if clears_subscribers(
                old(self).spec_config().clear_after_notification,
            ) {
                Seq::<SubscriberHandle<S>>::empty()
            } else {
                old(self).subscribers_seq()
            }),
            final(self).subscribers_mut_seq() == (if clears_subscribers_mut(
                old(self).spec_config().clear_after_notification,
            ) {
                Seq::<MutableSubscriberHandle<M>>::empty()
            } else {
                old(self).subscribers_mut_seq()
            }),
            final(self).fn_subscribers_seq() == (if clears_fn_subscribers(
                old(self).spec_config().clear_after_notification,
            ) {
                Seq::<F>::empty()
            } else {
                old(self).fn_subscribers_seq()
            }),
    {
        match self.config.clear_after_notification {
            Clear::All => self.clear_all_subscribers(),
            Clear::OnlySubscribers => self.clear_subscribers(),
            Clear::OnlySubscribersMut => self.clear_subscribers_mut(),
            Clear::OnlyFuncSubscribers => self.clear_fn_subscribers(),
            Clear::Nothing => {
                return ;
            },
        }
    }

    /// Empties every subscriber collection; counters are untouched.
    fn clear_all_subscribers(&mut self)
        requires
            old(self).wf(),
        ensures
            final(self).wf(),
            final(self).spec_config() == old(self).spec_config(),
            final(self).times_subscribers_notified() == old(self).times_subscribers_notified(),
            final(self).times_subscribers_mut_notified() == old(self).times_subscribers_mut_notified(),
            final(self).times_func_subscribers_notified() == old(self).times_func_subscribers_notified(),
            final(self).subscribers_seq() == Seq::<SubscriberHandle<S>>::empty(),
            final(self).subscribers_mut_seq() == Seq::<MutableSubscriberHandle<M>>::empty(),
            final(self).fn_subscribers_seq() == Seq::<F>::empty(),
    {
        self.clear_subscribers();
        self.clear_subscribers_mut();
        self.clear_fn_subscribers();
    }

    /// Empties the read-only collection; nothing else changes.
    fn clear_subscribers(&mut self)
        requires
            old(self).wf(),
        ensures
            final(self).wf(),
            final(self).spec_config() == old(self).spec_config(),
            final(self).times_subscribers_notified() == old(self).times_subscribers_notified(),
            final(self).times_subscribers_mut_notified() == old(self).times_subscribers_mut_notified(),
            final(self).times_func_subscribers_notified() == old(self).times_func_subscribers_notified(),
            final(self).subscribers_seq() == Seq::<SubscriberHandle<S>>::empty(),
            final(self).subscribers_mut_seq() == old(self).subscribers_mut_seq(),
            final(self).fn_subscribers_seq() == old(self).fn_subscribers_seq(),
    {
        self.subscribers.clear();
        proof {
            assert(self.fn_subscribers_seq() == old(self).fn_subscribers_seq());
        }
    }

    /// Empties the mutating collection; nothing else changes.
    fn clear_subscribers_mut(&mut self)
        requires
            old(self).wf(),
        ensures
            final(self).wf(),
            final(self).spec_config() == old(self).spec_config(),
            final(self).times_subscribers_notified() == old(self).times_subscribers_notified(),
            final(self).times_subscribers_mut_notified() == old(self).times_subscribers_mut_notified(),
            final(self).times_func_subscribers_notified() == old(self).times_func_subscribers_notified(),
            final(self).subscribers_seq() == old(self).subscribers_seq(),
            final(self).subscribers_mut_seq() == Seq::<MutableSubscriberHandle<M>>::empty(),
            final(self).fn_subscribers_seq() == old(self).fn_subscribers_seq(),
    {
        self.subscribers_mut.clear();
        proof {
            assert(self.fn_subscribers_seq() == old(self).fn_subscribers_seq());
        }
    }

    /// Empties the closure collection; nothing else changes.
    fn clear_fn_subscribers(&mut self)
        requires
            old(self).wf(),
        ensures
            final(self).wf(),
            final(self).spec_config() == old(self).spec_config(),
            final(self).times_subscribers_notified() == old(self).times_subscribers_notified(),
            final(self).times_subscribers_mut_notified() == old(self).times_subscribers_mut_notified(),
            final(self).times_func_subscribers_notified() == old(self).times_func_subscribers_notified(),
            final(self).subscribers_seq() == old(self).subscribers_seq(),
            final(self).subscribers_mut_seq() == old(self).subscribers_mut_seq(),
            final(self).fn_subscribers_seq() == Seq::<F>::empty(),
    {
        self.fn_subscribers.clear();
    }

    /// Runs one full notification cycle: notifies the kinds the
    /// configuration selects, each non-empty notified kind counting
    /// once, then applies the clear policy. An exclusive-access
    /// violation among the mutating subscribers aborts the cycle before
    /// the closure kind and before any clearing; a cycle whose
    /// configuration leaves the mutating kind out, or that finds the
    /// mutating collection empty, always succeeds.
    pub fn notify(&mut self) -> (r: Result<(), EventError>)
        requires
            old(self).wf(),
            notifies_subscribers(old(self).spec_config().subscribers_to_notify)
                && old(self).subscribers_seq().len() > 0 ==> old(self).times_subscribers_notified()
                < u32::MAX,
            notifies_subscribers_mut(old(self).spec_config().subscribers_to_notify)
                && old(self).subscribers_mut_seq().len() > 0 ==> old(self).times_subscribers_mut_notified()
                < u32::MAX,
            notifies_fn_subscribers(old(self).spec_config().subscribers_to_notify)
                && old(self).fn_subscribers_seq().len() > 0 ==> old(self).times_func_subscribers_notified()
                < u32::MAX,
        ensures
            final(self).wf(),
            !notifies_subscribers_mut(old(self).spec_config().subscribers_to_notify) || old(
                self,
            ).subscribers_mut_seq().len() == 0 ==> r is Ok,
            match r {
                Ok(u) => notify_transition(*old(self), *final(self)),
                Err(e) => {
                    &&& e == EventError::ExclusiveAccessViolation
                    &&& notifies_subscribers_mut(old(self).spec_config().subscribers_to_notify)
                    &&& old(self).subscribers_mut_seq().len() > 0
                    &&& notify_aborted(*old(self), *final(self))
                },
            },
    {
        match self.config.subscribers_to_notify {
            Notify::All => {
                self.notify_subscribers();
                match self.notify_subscribers_mut() {
                    Ok(u) => {},
                    Err(e) => {
                        return Err(e);
                    },
                }
                self.notify_fn_subscribers();
            },
            Notify::OnlySubscribers => self.notify_subscribers(),
            Notify::OnlySubscribersMut => {
                match self.notify_subscribers_mut() {
                    Ok(u) => {},
                    Err(e) => {
                        return Err(e);
                    },
                }
            },
            Notify::OnlyFnSubscribers => self.notify_fn_subscribers(),
        }
        self.try_clear();
        Ok(())
    }
}

/// How one completed [`Event::notify`] cycle transforms the event: each
/// kind in scope with at least one member adds one to its counter, and
/// the clear policy empties the collections it names.
pub open spec fn notify_transition<S: Subscriber, M: SubscriberMut, F: Fn() -> ()>(
    pre: Event<S, M, F>,
    post: Event<S, M, F>,
) -> bool {
    let cfg = pre.spec_config();
    &&& post.spec_config() == cfg
    &&& post.times_subscribers_notified() as int == pre.times_subscribers_notified() as int + (
    if notifies_subscribers(cfg.subscribers_to_notify) && pre.subscribers_seq().len() > 0 {
        1int
    } else {
        0int
    })
    &&& post.times_subscribers_mut_notified() as int == pre.times_subscribers_mut_notified() as int
        + (if notifies_subscribers_mut(cfg.subscribers_to_notify)
        && pre.subscribers_mut_seq().len() > 0 {
        1int
    } else {
        0int
    })
    &&& post.times_func_subscribers_notified() as int == pre.times_func_subscribers_notified() as int
        + (if notifies_fn_subscribers(cfg.subscribers_to_notify) && pre.fn_subscribers_seq().len()
        > 0 {
        1int
    } else {
        0int
    })
    &&& post.subscribers_seq() == (if clears_subscribers(cfg.clear_after_notification) {
        Seq::<SubscriberHandle<S>>::empty()
    } else {
        pre.subscribers_seq()
    })
    &&& post.subscribers_mut_seq() == (if clears_subscribers_mut(cfg.clear_after_notification) {
        Seq::<MutableSubscriberHandle<M>>::empty()
    } else {
        pre.subscribers_mut_seq()
    })
    &&& post.fn_subscribers_seq() == (if clears_fn_subscribers(cfg.clear_after_notification) {
        Seq::<F>::empty()
    } else {
        pre.fn_subscribers_seq()
    })
}

/// How an [`Event::notify`] cycle aborted by an exclusive-access
/// violation leaves the event: the read-only kind, dispatched first, has
/// already counted; nothing else has changed and nothing is cleared.
pub open spec fn notify_aborted<S: Subscriber, M: SubscriberMut, F: Fn() -> ()>(
    pre: Event<S, M, F>,
    post: Event<S, M, F>,
) -> bool {
    let cfg = pre.spec_config();
    &&& post.spec_config() == cfg
    &&& post.times_subscribers_notified() as int == pre.times_subscribers_notified() as int + (
    if notifies_subscribers(cfg.subscribers_to_notify) && pre.subscribers_seq().len() > 0 {
        1int
    } else {
        0int
    })
    &&& post.times_subscribers_mut_notified() == pre.times_subscribers_mut_notified()
    &&& post.times_func_subscribers_notified() == pre.times_func_subscribers_notified()
    &&& post.subscribers_seq() == pre.subscribers_seq()
    &&& post.subscribers_mut_seq() == pre.subscribers_mut_seq()
    &&& post.fn_subscribers_seq() == pre.fn_subscribers_seq()
}

/// A completed cycle whose configuration reaches the read-only kind,
/// with at least one read-only subscriber registered, raises the
/// read-only counter by exactly one — however many subscribers the
/// collection holds.
pub proof fn lemma_notify_counts_read_only_kind_once<
    S: Subscriber,
    M: SubscriberMut,
    F: Fn() -> (),
>(pre: Event<S, M, F>, post: Event<S, M, F>)
    requires
        notify_transition(pre, post),
        notifies_subscribers(pre.spec_config().subscribers_to_notify),
        pre.subscribers_seq().len() > 0,
    ensures
        post.times_subscribers_notified() as int == pre.times_subscribers_notified() as int + 1,
{
}

/// With the clear-all policy, a completed cycle leaves all three
/// collections empty, whatever they held before.
pub proof fn lemma_clear_all_policy_empties_every_collection<
    S: Subscriber,
    M: SubscriberMut,
    F: Fn() -> (),
>(pre: Event<S, M, F>, post: Event<S, M, F>)
    requires
        notify_transition(pre, post),
        pre.spec_config().clear_after_notification == Clear::All,
    ensures
        post.subscribers_seq() == Seq::<SubscriberHandle<S>>::empty(),
        post.subscribers_mut_seq() == Seq::<MutableSubscriberHandle<M>>::empty(),
        post.fn_subscribers_seq() == Seq::<F>::empty(),
{
}

/// With the clear-nothing policy, two consecutive completed cycles that
/// reach the closure kind, on an event holding one closure subscriber,
/// raise the closure counter by two and keep the closure registered.
pub proof fn lemma_no_clearing_accumulates_closure_counter<
    S: Subscriber,
    M: SubscriberMut,
    F: Fn() -> (),
>(e0: Event<S, M, F>, e1: Event<S, M, F>, e2: Event<S, M, F>)
    requires
        notify_transition(e0, e1),
        notify_transition(e1, e2),
        e0.spec_config().clear_after_notification == Clear::Nothing,
        notifies_fn_subscribers(e0.spec_config().subscribers_to_notify),
        e0.fn_subscribers_seq().len() == 1,
    ensures
        e2.times_func_subscribers_notified() as int == e0.times_func_subscribers_notified() as int
            + 2,
        e2.fn_subscribers_seq() == e0.fn_subscribers_seq(),
{
}

/// Lifetime counters never decrease: a completed cycle leaves each
/// counter where it was or one higher, and clearing touches none of
/// them.
pub proof fn lemma_counters_never_decrease<S: Subscriber, M: SubscriberMut, F: Fn() -> ()>(
    pre: Event<S, M, F>,
    post: Event<S, M, F>,
)
    requires
        notify_transition(pre, post),
    ensures
        post.times_subscribers_notified() >= pre.times_subscribers_notified(),
        post.times_subscribers_mut_notified() >= pre.times_subscribers_mut_notified(),
        post.times_func_subscribers_notified() >= pre.times_func_subscribers_notified(),
{
}

/// Removing the sole entry registered under an identity leaves a
/// collection with no entry under that identity, wherever the
/// swap-with-last strategy moved the remaining entries.
pub proof fn lemma_removing_sole_registration_clears_identity<S>(
    s: Seq<SubscriberHandle<S>>,
    id: u64,
    i: int,
)
    requires
        is_first_match(s, id, i),
        forall|j: int| 0 <= j < s.len() && j != i ==> s[j].spec_id() != id,
    ensures
        forall|j: int|
            0 <= j < swap_removed(s, i).len() ==> (#[trigger] swap_removed(s, i)[j]).spec_id()
                != id,
{
    assert forall|j: int|
        0 <= j < swap_removed(s, i).len() implies (#[trigger] swap_removed(s, i)[j]).spec_id()
        != id by {
        if j == i {
            assert(swap_removed(s, i)[j] == s[s.len() - 1]);
        } else {
            assert(swap_removed(s, i)[j] == s[j]);
        }
    }
}

impl<S: Subscriber, M: SubscriberMut, F: Fn() -> ()> Default for Event<S, M, F> {
    /// An event with the default configuration: notify every kind, clear
    /// every collection.
    fn default() -> (e: Self)
        ensures
            e.wf(),
            e.subscribers_seq() == Seq::<SubscriberHandle<S>>::empty(),
            e.subscribers_mut_seq() == Seq::<MutableSubscriberHandle<M>>::empty(),
            e.fn_subscribers_seq() == Seq::<F>::empty(),
            e.spec_config().subscribers_to_notify == Notify::All,
            e.spec_config().clear_after_notification == Clear::All,
            e.times_subscribers_notified() == 0,
            e.times_subscribers_mut_notified() == 0,
            e.times_func_subscribers_notified() == 0,
    {
        Event::new(EventConfig::default())
    }
}

} // verus!
