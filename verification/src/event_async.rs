//! The concurrent event: registration and removal as in the synchronous
//! event, but dispatch spawns one independently scheduled unit of work
//! per subscriber and blocks the triggering call until every unit has
//! finished (fan-out, then fan-in) before returning.

use vstd::prelude::*;
use vstd::*;
use std::sync::Arc;
use crate::events::{
    EventConfig,
    EventError,
    Notify,
    Clear,
    is_first_match,
    swap_removed,
    notifies_subscribers,
    notifies_subscribers_mut,
    notifies_fn_subscribers,
    clears_subscribers,
    clears_subscribers_mut,
    clears_fn_subscribers,
};
use crate::subscriber::{
    SubscriberAsync,
    SubscriberAsyncMut,
    SubscriberHandle,
    MutableSubscriberHandle,
    arc_clone,
    arc_borrow,
};

verus! {

/// Provides a concurrent mechanism for subscribers to register themselves
/// with a source and be notified of state changes: every notified
/// subscriber runs as its own unit of work, and the triggering call
/// returns only once all of them have finished. Completion order among
/// units is not specified; registration order only governs the order in
/// which units are spawned.
#[verifier::reject_recursive_types(M)]
pub struct EventAsync<S, M, F> where
    S: SubscriberAsync + Send + Sync + 'static,
    M: SubscriberAsyncMut + Send + Sync + 'static,
    F: Fn() -> () + Send + Sync + 'static,
 {
    times_subscribers_notified: u32,
    times_func_subscribers_notified: u32,
    subscribers: Vec<SubscriberHandle<S>>,
    subscribers_mut: Vec<MutableSubscriberHandle<M>>,
    fn_subscribers: Vec<Arc<F>>,
    config: EventConfig,
}

impl<S, M, F> EventAsync<S, M, F> where
    S: SubscriberAsync + Send + Sync + 'static,
    M: SubscriberAsyncMut + Send + Sync + 'static,
    F: Fn() -> () + Send + Sync + 'static,
 {
    /// The registered read-only subscribers, in registration order.
    pub closed spec fn subscribers_seq(&self) -> Seq<SubscriberHandle<S>> {
        self.subscribers@
    }

    /// The registered mutating subscribers, in registration order.
    pub closed spec fn subscribers_mut_seq(&self) -> Seq<MutableSubscriberHandle<M>> {
        self.subscribers_mut@
    }

    /// The registered closure subscribers, in registration order.
    pub closed spec fn fn_subscribers_seq(&self) -> Seq<Arc<F>> {
        self.fn_subscribers@
    }

    /// The policy pair this event was created with.
    pub closed spec fn spec_config(&self) -> EventConfig {
        self.config
    }

    /// How many cycles have notified the read-only kind (lifetime count,
    /// never reset by clearing).
    pub closed spec fn spec_times_subscribers_notified(&self) -> u32 {
        self.times_subscribers_notified
    }

    /// How many cycles have notified the closure kind (lifetime count).
    pub closed spec fn spec_times_func_subscribers_notified(&self) -> u32 {
        self.times_func_subscribers_notified
    }

    /// Reads the lifetime count of cycles that notified the read-only
    /// kind.
    #[verifier::when_used_as_spec(spec_times_subscribers_notified)]
    pub fn times_subscribers_notified(&self) -> (n: u32)
        ensures
            n == self.spec_times_subscribers_notified(),
    {
        self.times_subscribers_notified
    }

    /// Reads the lifetime count of cycles that notified the closure kind.
    #[verifier::when_used_as_spec(spec_times_func_subscribers_notified)]
    pub fn times_func_subscribers_notified(&self) -> (n: u32)
        ensures
            n == self.spec_times_func_subscribers_notified(),
    {
        self.times_func_subscribers_notified
    }

    /// The identity tokens of the read-only collection, in order.
    pub open spec fn subscriber_ids(&self) -> Seq<u64> {
        self.subscribers_seq().map_values(|h: SubscriberHandle<S>| h.spec_id())
    }

    /// The identity tokens of the mutating collection, in order.
    pub open spec fn subscriber_mut_ids(&self) -> Seq<u64> {
        self.subscribers_mut_seq().map_values(|h: MutableSubscriberHandle<M>| h.spec_id())
    }

    /// Every stored closure can be invoked: established at registration,
    /// preserved by every method.
    pub open spec fn wf(&self) -> bool {
        forall|i: int|
            0 <= i < self.fn_subscribers_seq().len() ==> (*(#[trigger] self.fn_subscribers_seq()[i])).requires(())
    }

    /// Creates a concurrent event whose behavior is governed by `config`.
    pub fn new(config: EventConfig) -> (e: EventAsync<S, M, F>)
        ensures
            e.wf(),
            e.subscribers_seq() == Seq::<SubscriberHandle<S>>::empty(),
            e.subscribers_mut_seq() == Seq::<MutableSubscriberHandle<M>>::empty(),
            e.fn_subscribers_seq() == Seq::<Arc<F>>::empty(),
            e.spec_config() == config,
            e.times_subscribers_notified() == 0,
            e.times_func_subscribers_notified() == 0,
    {
        EventAsync {
            subscribers: Vec::new(),
            subscribers_mut: Vec::new(),
            fn_subscribers: Vec::new(),
            times_subscribers_notified: 0,
            times_func_subscribers_notified: 0,
            config,
        }
    }

    /// All read-only subscribers listening to this event.
    pub fn get_subscribers(&self) -> (v: &Vec<SubscriberHandle<S>>)
        ensures
            v@ == self.subscribers_seq(),
    {
        &self.subscribers
    }

    /// All mutating subscribers listening to this event.
    pub fn get_subscribers_mut(&self) -> (v: &Vec<MutableSubscriberHandle<M>>)
        ensures
            v@ == self.subscribers_mut_seq(),
    {
        &self.subscribers_mut
    }

    /// All closure subscribers listening to this event.
    pub fn get_fn_subscribers(&self) -> (v: &Vec<Arc<F>>)
        ensures
            v@ == self.fn_subscribers_seq(),
    {
        &self.fn_subscribers
    }

    /// Appends a read-only subscriber; nothing else changes.
    pub fn subscribe(&mut self, subscriber: SubscriberHandle<S>)
        requires
            old(self).wf(),
        ensures
            final(self).wf(),
            final(self).subscribers_seq() == old(self).subscribers_seq().push(subscriber),
            final(self).subscribers_mut_seq() == old(self).subscribers_mut_seq(),
            final(self).fn_subscribers_seq() == old(self).fn_subscribers_seq(),
            final(self).spec_config() == old(self).spec_config(),
            final(self).times_subscribers_notified() == old(self).times_subscribers_notified(),
            final(self).times_func_subscribers_notified() == old(self).times_func_subscribers_notified(),
    {
        self.subscribers.push(subscriber);
        proof {
            assert(self.fn_subscribers_seq() == old(self).fn_subscribers_seq());
        }
    }

    /// Appends a mutating subscriber; nothing else changes.
    pub fn subscribe_mut(&mut self, subscriber: MutableSubscriberHandle<M>)
        requires
            old(self).wf(),
        ensures
            final(self).wf(),
            final(self).subscribers_mut_seq() == old(self).subscribers_mut_seq().push(subscriber),
            final(self).subscribers_seq() == old(self).subscribers_seq(),
            final(self).fn_subscribers_seq() == old(self).fn_subscribers_seq(),
            final(self).spec_config() == old(self).spec_config(),
            final(self).times_subscribers_notified() == old(self).times_subscribers_notified(),
            final(self).times_func_subscribers_notified() == old(self).times_func_subscribers_notified(),
    {
        self.subscribers_mut.push(subscriber);
        proof {
            assert(self.fn_subscribers_seq() == old(self).fn_subscribers_seq());
        }
    }

    /// Appends a closure subscriber. Closures carry no identity: they can
    /// only be removed en masse by the clear policy.
    pub fn subscribe_as_fn(&mut self, subscriber: F)
        requires
            old(self).wf(),
            subscriber.requires(()),
        ensures
            final(self).wf(),
            final(self).fn_subscribers_seq().len() == old(self).fn_subscribers_seq().len() + 1,
            (*final(self).fn_subscribers_seq().last()) == subscriber,
            final(self).fn_subscribers_seq().drop_last() == old(self).fn_subscribers_seq(),
            final(self).subscribers_seq() == old(self).subscribers_seq(),
            final(self).subscribers_mut_seq() == old(self).subscribers_mut_seq(),
            final(self).spec_config() == old(self).spec_config(),
            final(self).times_subscribers_notified() == old(self).times_subscribers_notified(),
            final(self).times_func_subscribers_notified() == old(self).times_func_subscribers_notified(),
    {
        let boxed = Arc::new(subscriber);
        self.fn_subscribers.push(boxed);
        proof {
            assert(self.fn_subscribers_seq() == old(self).fn_subscribers_seq().push(boxed));
            assert(self.fn_subscribers_seq().drop_last() == old(self).fn_subscribers_seq());
        }
    }

    /// Removes the first read-only entry whose identity matches
    /// `subscriber`, swapping the last entry into its place; fails with a
    /// not-found error, changing nothing, when no entry matches.
    pub fn unsubscribe(&mut self, subscriber: SubscriberHandle<S>) -> (r: Result<(), EventError>)
        requires
            old(self).wf(),
        ensures
            final(self).wf(),
            final(self).subscribers_mut_seq() == old(self).subscribers_mut_seq(),
            final(self).fn_subscribers_seq() == old(self).fn_subscribers_seq(),
            final(self).spec_config() == old(self).spec_config(),
            final(self).times_subscribers_notified() == old(self).times_subscribers_notified(),
            final(self).times_func_subscribers_notified() == old(self).times_func_subscribers_notified(),
            (r is Ok) <==> old(self).subscriber_ids().contains(subscriber.spec_id()),
            match r {
                Ok(u) => exists|i: int|
                    #[trigger] is_first_match(
                        old(self).subscribers_seq(),
                        subscriber.spec_id(),
                        i,
                    ) && final(self).subscribers_seq() == swap_removed(
                        old(self).subscribers_seq(),
                        i,
                    ),
                Err(e) => {
                    &&& e == EventError::SubscriberNotFound
                    &&& final(self).subscribers_seq() == old(self).subscribers_seq()
                },
            },
    {
        match self.contains(&subscriber) {
            Some(index) => {
                self.subscribers.swap_remove(index);
                proof {
                    assert(self.fn_subscribers_seq() == old(self).fn_subscribers_seq());
                    assert(old(self).subscriber_ids()[index as int] == subscriber.spec_id());
                }
                Ok(())
            },
            None => Err(EventError::SubscriberNotFound),
        }
    }

    /// The position of the first read-only entry whose identity matches
    /// `subscriber`, if any.
    fn contains(&self, subscriber: &SubscriberHandle<S>) -> (r: Option<usize>)
        ensures
            match r {
                Some(i) => is_first_match(
                    self.subscribers_seq(),
                    subscriber.spec_id(),
                    i as int,
                ),
                None => !self.subscriber_ids().contains(subscriber.spec_id()),
            },
    {
        let id = subscriber.id();
        let n = self.subscribers.len();
        for i in 0..n
            invariant
                n == self.subscribers_seq().len(),
                id == subscriber.spec_id(),
                forall|j: int| 0 <= j < i ==> self.subscribers_seq()[j].spec_id() != id,
        {
            if self.subscribers[i].id() == id {
                return Some(i);
            }
        }
        proof {
            assert forall|k: int|
                0 <= k < self.subscriber_ids().len() implies self.subscriber_ids()[k] != id by {
                assert(self.subscriber_ids()[k] == self.subscribers_seq()[k].spec_id());
            }
        }
        None
    }

    /// Spawns one unit of work per read-only subscriber, each invoking
    /// that subscriber's update, then blocks until every unit has
    /// finished. If at least one subscriber is registered, the read-only
    /// counter rises by exactly one for the whole batch. A unit that
    /// fails is reported once the barrier has seen every unit finish.
    pub fn notify_subscribers(&mut self) -> (r: Result<(), EventError>)
        requires
            old(self).wf(),
            old(self).subscribers_seq().len() > 0 ==> old(self).times_subscribers_notified()
                < u32::MAX,
        ensures
            final(self).wf(),
            final(self).subscribers_seq() == old(self).subscribers_seq(),
            final(self).subscribers_mut_seq() == old(self).subscribers_mut_seq(),
            final(self).fn_subscribers_seq() == old(self).fn_subscribers_seq(),
            final(self).spec_config() == old(self).spec_config(),
            final(self).times_subscribers_notified() as int == old(self).times_subscribers_notified() as int
                + (if old(self).subscribers_seq().len() > 0 {
                1int
            } else {
                0int
            }),
            final(self).times_func_subscribers_notified() == old(self).times_func_subscribers_notified(),
            old(self).subscribers_seq().len() == 0 ==> r is Ok,
            r is Err ==> r == Err::<(), EventError>(EventError::SubscriberFailure),
    {
        if self.subscribers.is_empty() {
            return Ok(());
        }
        let mut handles: Vec<thread::JoinHandle<()>> = Vec::new();
        let n = self.subscribers.len();
        for i in 0..n
            invariant
                *self == *old(self),
                n == self.subscribers_seq().len(),
        {
            let h = self.subscribers[i].clone();
            let jh = thread::spawn(
                move ||
                    {
                        h.get().update();
                    },
            );
            handles.push(jh);
        }
        self.times_subscribers_notified = self.times_subscribers_notified + 1;
        let mut failed = false;
        loop
            decreases handles@.len(),
        {
            match handles.pop() {
                Some(jh) => {
                    match jh.join() {
                        Ok(u) => {},
                        Err(e) => {
                            failed = true;
                        },
                    }
                },
                None => {
                    break ;
                },
            }
        }
        proof {
            assert(self.fn_subscribers_seq() == old(self).fn_subscribers_seq());
        }
        if failed {
            Err(EventError::SubscriberFailure)
        } else {
            Ok(())
        }
    }

    /// Spawns one unit of work per mutating subscriber, each taking
    /// exclusive access to its subscriber for the span of the update,
    /// then blocks until every unit has finished. A subscriber already
    /// held elsewhere fails its unit with an exclusive-access violation;
    /// the barrier still waits for every unit before the failure is
    /// surfaced.
    pub fn notify_subscribers_mut(&mut self) -> (r: Result<(), EventError>)
        requires
            old(self).wf(),
        ensures
            final(self).wf(),
            final(self).subscribers_seq() == old(self).subscribers_seq(),
            final(self).subscribers_mut_seq() == old(self).subscribers_mut_seq(),
            final(self).fn_subscribers_seq() == old(self).fn_subscribers_seq(),
            final(self).spec_config() == old(self).spec_config(),
            final(self).times_subscribers_notified() == old(self).times_subscribers_notified(),
            final(self).times_func_subscribers_notified() == old(self).times_func_subscribers_notified(),
            old(self).subscribers_mut_seq().len() == 0 ==> r is Ok,
            r is Err ==> {
                &&& old(self).subscribers_mut_seq().len() > 0
                &&& (r == Err::<(), EventError>(EventError::ExclusiveAccessViolation) || r == Err::<
                    (),
                    EventError,
                >(EventError::SubscriberFailure))
            },
    {
        if self.subscribers_mut.is_empty() {
            return Ok(());
        }
        let mut handles: Vec<thread::JoinHandle<bool>> = Vec::new();
        let n = self.subscribers_mut.len();
        for i in 0..n
            invariant
                *self == *old(self),
                n == self.subscribers_mut_seq().len(),
        {
            let h = self.subscribers_mut[i].clone();
            let jh = thread::spawn(
                move ||
                    {
                        match h.take() {
                            Some(mut taken) => {
                                taken.update_mut();
                                match h.put(taken) {
                                    Ok(u) => true,
                                    Err(back) => false,
                                }
                            },
                            None => false,
                        }
                    },
            );
            handles.push(jh);
        }
        let mut violated = false;
        let mut failed = false;
        loop
            decreases handles@.len(),
        {
            match handles.pop() {
                Some(jh) => {
                    match jh.join() {
                        Ok(clean) => {
                            if !clean {
                                violated = true;
                            }
                        },
                        Err(e) => {
                            failed = true;
                        },
                    }
                },
                None => {
                    break ;
                },
            }
        }
        proof {
            assert(self.fn_subscribers_seq() == old(self).fn_subscribers_seq());
        }
        if violated {
            Err(EventError::ExclusiveAccessViolation)
        } else if failed {
            Err(EventError::SubscriberFailure)
        } else {
            Ok(())
        }
    }

    /// Spawns one unit of work per closure subscriber, each invoking its
    /// closure, then blocks until every unit has finished. If at least
    /// one closure is registered, the closure counter rises by exactly
    /// one for the whole batch.
    pub fn notify_fn_subscribers(&mut self) -> (r: Result<(), EventError>)
        requires
            old(self).wf(),
            old(self).fn_subscribers_seq().len() > 0 ==> old(self).times_func_subscribers_notified()
                < u32::MAX,
        ensures
            final(self).wf(),
            final(self).subscribers_seq() == old(self).subscribers_seq(),
            final(self).subscribers_mut_seq() == old(self).subscribers_mut_seq(),
            final(self).fn_subscribers_seq() == old(self).fn_subscribers_seq(),
            final(self).spec_config() == old(self).spec_config(),
            final(self).times_subscribers_notified() == old(self).times_subscribers_notified(),
            final(self).times_func_subscribers_notified() as int == old(self).times_func_subscribers_notified() as int
                + (if old(self).fn_subscribers_seq().len() > 0 {
                1int
            } else {
                0int
            }),
            old(self).fn_subscribers_seq().len() == 0 ==> r is Ok,
            r is Err ==> r == Err::<(), EventError>(EventError::SubscriberFailure),
    {
        if self.fn_subscribers.is_empty() {
            return Ok(());
        }
        let mut handles: Vec<thread::JoinHandle<()>> = Vec::new();
        let n = self.fn_subscribers.len();
        for i in 0..n
            invariant
                *self == *old(self),
                old(self).wf(),
                n == self.fn_subscribers_seq().len(),
        {
            let c = arc_clone(&self.fn_subscribers[i]);
            let jh = thread::spawn(
                move ||
                    {
                        let g = arc_borrow(&c);
                        g()
                    },
            );
            handles.push(jh);
        }
        self.times_func_subscribers_notified = self.times_func_subscribers_notified + 1;
        let mut failed = false;
        loop
            decreases handles@.len(),
        {
            match handles.pop() {
                Some(jh) => {
                    match jh.join() {
                        Ok(u) => {},
                        Err(e) => {
                            failed = true;
                        },
                    }
                },
                None => {
                    break ;
                },
            }
        }
        proof {
            assert(self.fn_subscribers_seq() == old(self).fn_subscribers_seq());
        }
        if failed {
            Err(EventError::SubscriberFailure)
        } else {
            Ok(())
        }
    }

    /// Empties the collections the clear policy names; counters and the
    /// configuration are untouched, and a clear-nothing policy leaves
    /// the whole event as it was.
    fn try_clear(&mut self)
        requires
            old(self).wf(),
        ensures
            final(self).wf(),
            old(self).spec_config().clear_after_notification == Clear::Nothing ==> *final(self)
                == *old(self),
            final(self).spec_config() == old(self).spec_config(),
            final(self).times_subscribers_notified() == old(self).times_subscribers_notified(),
            final(self).times_func_subscribers_notified() == old(self).times_func_subscribers_notified(),
            final(self).subscribers_seq() == (if clears_subscribers(
                old(self).spec_config().clear_after_notification,
            ) {
                Seq::<SubscriberHandle<S>>::empty()
            } else {
                old(self).subscribers_seq()
            }),
            final(self).subscribers_mut_seq() == (if clears_subscribers_mut(
                old(self).spec_config().clear_after_notification,
            ) {
                Seq::<MutableSubscriberHandle<M>>::empty()
            } else {
                old(self).subscribers_mut_seq()
            }),
            final(self).fn_subscribers_seq() == (if clears_fn_subscribers(
                old(self).spec_config().clear_after_notification,
            ) {
                Seq::<Arc<F>>::empty()
            } else {
                old(self).fn_subscribers_seq()
            }),
    {
        match self.config.clear_after_notification {
            Clear::All => self.clear_all_subscribers(),
            Clear::OnlySubscribers => self.clear_subscribers(),
            Clear::OnlySubscribersMut => self.clear_subscribers_mut(),
            Clear::OnlyFuncSubscribers => self.clear_fn_subscribers(),
            Clear::Nothing => {
                return ;
            },
        }
    }

    /// Empties every subscriber collection; counters are untouched.
    pub fn clear_all_subscribers(&mut self)
        requires
            old(self).wf(),
        ensures
            final(self).wf(),
            final(self).spec_config() == old(self).spec_config(),
            final(self).times_subscribers_notified() == old(self).times_subscribers_notified(),
            final(self).times_func_subscribers_notified() == old(self).times_func_subscribers_notified(),
            final(self).subscribers_seq() == Seq::<SubscriberHandle<S>>::empty(),
            final(self).subscribers_mut_seq() == Seq::<MutableSubscriberHandle<M>>::empty(),
            final(self).fn_subscribers_seq() == Seq::<Arc<F>>::empty(),
    {
        self.clear_subscribers();
        self.clear_subscribers_mut();
        self.clear_fn_subscribers();
    }

    /// Empties the read-only collection; nothing else changes.
    pub fn clear_subscribers(&mut self)
        requires
            old(self).wf(),
        ensures
            final(self).wf(),
            final(self).spec_config() == old(self).spec_config(),
            final(self).times_subscribers_notified() == old(self).times_subscribers_notified(),
            final(self).times_func_subscribers_notified() == old(self).times_func_subscribers_notified(),
            final(self).subscribers_seq() == Seq::<SubscriberHandle<S>>::empty(),
            final(self).subscribers_mut_seq() == old(self).subscribers_mut_seq(),
            final(self).fn_subscribers_seq() == old(self).fn_subscribers_seq(),
    {
        self.subscribers.clear();
        proof {
            assert(self.fn_subscribers_seq() == old(self).fn_subscribers_seq());
        }
    }

    /// Empties the mutating collection; nothing else changes.
    pub fn clear_subscribers_mut(&mut self)
        requires
            old(self).wf(),
        ensures
            final(self).wf(),
            final(self).spec_config() == old(self).spec_config(),
            final(self).times_subscribers_notified() == old(self).times_subscribers_notified(),
            final(self).times_func_subscribers_notified() == old(self).times_func_subscribers_notified(),
            final(self).subscribers_seq() == old(self).subscribers_seq(),
            final(self).subscribers_mut_seq() == Seq::<MutableSubscriberHandle<M>>::empty(),
            final(self).fn_subscribers_seq() == old(self).fn_subscribers_seq(),
    {
        self.subscribers_mut.clear();
        proof {
            assert(self.fn_subscribers_seq() == old(self).fn_subscribers_seq());
        }
    }

    /// Empties the closure collection; nothing else changes.
    pub fn clear_fn_subscribers(&mut self)
        requires
            old(self).wf(),
        ensures
            final(self).wf(),
            final(self).spec_config() == old(self).spec_config(),
            final(self).times_subscribers_notified() == old(self).times_subscribers_notified(),
            final(self).times_func_subscribers_notified() == old(self).times_func_subscribers_notified(),
            final(self).subscribers_seq() == old(self).subscribers_seq(),
            final(self).subscribers_mut_seq() == old(self).subscribers_mut_seq(),
            final(self).fn_subscribers_seq() == Seq::<Arc<F>>::empty(),
    {
        self.fn_subscribers.clear();
    }

    /// Runs one full notification cycle: notifies the kinds the
    /// configuration selects as concurrent batches — each batch joined
    /// before the next is spawned, each non-empty counted kind counting
    /// once — then applies the clear policy. A failure in any batch
    /// aborts the cycle after that batch's barrier, before any clearing;
    /// a cycle whose in-scope collections are all empty spawns no units
    /// and always succeeds.
    pub fn notify(&mut self) -> (r: Result<(), EventError>)
        requires
            old(self).wf(),
            notifies_subscribers(old(self).spec_config().subscribers_to_notify)
                && old(self).subscribers_seq().len() > 0 ==> old(self).times_subscribers_notified()
                < u32::MAX,
            notifies_fn_subscribers(old(self).spec_config().subscribers_to_notify)
                && old(self).fn_subscribers_seq().len() > 0 ==> old(self).times_func_subscribers_notified()
                < u32::MAX,
        ensures
            final(self).wf(),
            (notifies_subscribers(old(self).spec_config().subscribers_to_notify) ==> old(
                self,
            ).subscribers_seq().len() == 0) && (notifies_subscribers_mut(
                old(self).spec_config().subscribers_to_notify,
            ) ==> old(self).subscribers_mut_seq().len() == 0) && (notifies_fn_subscribers(
                old(self).spec_config().subscribers_to_notify,
            ) ==> old(self).fn_subscribers_seq().len() == 0) ==> r is Ok,
            match r {
                Ok(u) => notify_transition_async(*old(self), *final(self)),
                Err(e) => {
                    &&& notify_aborted_async(*old(self), *final(self))
                    &&& (e == EventError::ExclusiveAccessViolation || e
                        == EventError::SubscriberFailure)
                    &&& (e == EventError::ExclusiveAccessViolation ==> final(self).times_func_subscribers_notified()
                        == old(self).times_func_subscribers_notified())
                },
            },
    {
        match self.config.subscribers_to_notify {
            Notify::All => {
                match self.notify_subscribers() {
                    Ok(u) => {},
                    Err(e) => {
                        return Err(e);
                    },
                }
                match self.notify_subscribers_mut() {
                    Ok(u) => {},
                    Err(e) => {
                        return Err(e);
                    },
                }
                match self.notify_fn_subscribers() {
                    Ok(u) => {},
                    Err(e) => {
                        return Err(e);
                    },
                }
            },
            Notify::OnlySubscribers => {
                match self.notify_subscribers() {
                    Ok(u) => {},
                    Err(e) => {
                        return Err(e);
                    },
                }
            },
            Notify::OnlySubscribersMut => {
                match self.notify_subscribers_mut() {
                    Ok(u) => {},
                    Err(e) => {
                        return Err(e);
                    },
                }
            },
            Notify::OnlyFnSubscribers => {
                match self.notify_fn_subscribers() {
                    Ok(u) => {},
                    Err(e) => {
                        return Err(e);
                    },
                }
            },
        }
        self.try_clear();
        Ok(())
    }
}

impl<S, M, F> Default for EventAsync<S, M, F> where
    S: SubscriberAsync + Send + Sync + 'static,
    M: SubscriberAsyncMut + Send + Sync + 'static,
    F: Fn() -> () + Send + Sync + 'static,
 {
    /// A concurrent event with the default configuration: notify every
    /// kind, clear every collection.
    fn default() -> (e: Self)
        ensures
            e.wf(),
            e.subscribers_seq() == Seq::<SubscriberHandle<S>>::empty(),
            e.subscribers_mut_seq() == Seq::<MutableSubscriberHandle<M>>::empty(),
            e.fn_subscribers_seq() == Seq::<Arc<F>>::empty(),
            e.spec_config().subscribers_to_notify == Notify::All,
            e.spec_config().clear_after_notification == Clear::All,
            e.times_subscribers_notified() == 0,
            e.times_func_subscribers_notified() == 0,
    {
        EventAsync::new(EventConfig::default())
    }
}

/// How one completed [`EventAsync::notify`] cycle transforms the event:
/// each counted kind in scope with at least one member adds one to its
/// counter, and the clear policy empties the collections it names.
pub open spec fn notify_transition_async<S, M, F>(
    pre: EventAsync<S, M, F>,
    post: EventAsync<S, M, F>,
) -> bool where
    S: SubscriberAsync + Send + Sync + 'static,
    M: SubscriberAsyncMut + Send + Sync + 'static,
    F: Fn() -> () + Send + Sync + 'static,
 {
    let cfg = pre.spec_config();
    &&& post.spec_config() == cfg
    &&& post.times_subscribers_notified() as int == pre.times_subscribers_notified() as int + (
    if notifies_subscribers(cfg.subscribers_to_notify) && pre.subscribers_seq().len() > 0 {
        1int
    } else {
        0int
    })
    &&& post.times_func_subscribers_notified() as int == pre.times_func_subscribers_notified() as int
        + (if notifies_fn_subscribers(cfg.subscribers_to_notify) && pre.fn_subscribers_seq().len()
        > 0 {
        1int
    } else {
        0int
    })
    &&& post.subscribers_seq() == (if clears_subscribers(cfg.clear_after_notification) {
        Seq::<SubscriberHandle<S>>::empty()
    } else {
        pre.subscribers_seq()
    })
    &&& post.subscribers_mut_seq() == (if clears_subscribers_mut(cfg.clear_after_notification) {
        Seq::<MutableSubscriberHandle<M>>::empty()
    } else {
        pre.subscribers_mut_seq()
    })
    &&& post.fn_subscribers_seq() == (if clears_fn_subscribers(cfg.clear_after_notification) {
        Seq::<Arc<F>>::empty()
    } else {
        pre.fn_subscribers_seq()
    })
}

/// How an [`EventAsync::notify`] cycle aborted by a failed batch leaves
/// the event: no collection is cleared; a counted kind whose batch ran
/// has already counted — the read-only kind exactly when it was in
/// scope and non-empty, the closure kind only if its own batch, in
/// scope and non-empty, is where the failure arose.
pub open spec fn notify_aborted_async<S, M, F>(
    pre: EventAsync<S, M, F>,
    post: EventAsync<S, M, F>,
) -> bool where
    S: SubscriberAsync + Send + Sync + 'static,
    M: SubscriberAsyncMut + Send + Sync + 'static,
    F: Fn() -> () + Send + Sync + 'static,
 {
    let cfg = pre.spec_config();
    &&& post.spec_config() == cfg
    &&& post.subscribers_seq() == pre.subscribers_seq()
    &&& post.subscribers_mut_seq() == pre.subscribers_mut_seq()
    &&& post.fn_subscribers_seq() == pre.fn_subscribers_seq()
    &&& post.times_subscribers_notified() as int == pre.times_subscribers_notified() as int + (
    if notifies_subscribers(cfg.subscribers_to_notify) && pre.subscribers_seq().len() > 0 {
        1int
    } else {
        0int
    })
    &&& (post.times_func_subscribers_notified() == pre.times_func_subscribers_notified() || (
    notifies_fn_subscribers(cfg.subscribers_to_notify) && pre.fn_subscribers_seq().len() > 0
        && post.times_func_subscribers_notified() as int == pre.times_func_subscribers_notified() as int
        + 1))
}

} // verus!
