use std::sync::atomic::{AtomicU32, Ordering};
use std::sync::Arc;

use rustvent::events::{Clear, Event, EventConfig, Notify};
use rustvent::subscriber::{
    MutableSubscriberHandle, Subscriber, SubscriberHandle, SubscriberMut,
};

struct CountingSubscriber {
    invocations: Arc<AtomicU32>,
}

impl Subscriber for CountingSubscriber {
    fn update(&self) {
        self.invocations.fetch_add(1, Ordering::SeqCst);
    }
}

struct AddTenSubscriber {
    value: u8,
}

impl SubscriberMut for AddTenSubscriber {
    fn update_mut(&mut self) {
        self.value += 10;
    }
}

type CountingEvent = Event<CountingSubscriber, AddTenSubscriber, fn()>;

#[test]
fn one_cycle_counts_the_read_only_kind_once_and_each_subscriber_once() {
    let config = EventConfig {
        subscribers_to_notify: Notify::OnlySubscribers,
        clear_after_notification: Clear::Nothing,
    };
    let mut event = CountingEvent::new(config);
    let invocations = Arc::new(AtomicU32::new(0));

    for id in 1..=3 {
        let sub = SubscriberHandle::new(
            id,
            CountingSubscriber { invocations: invocations.clone() },
        );
        event.subscribe(sub);
    }

    event.notify().unwrap();

    assert_eq!(1, event.times_subscribers_notified());
    assert_eq!(3, invocations.load(Ordering::SeqCst));
}

#[test]
fn notify_with_empty_collections_counts_nothing() {
    let mut event = CountingEvent::new(EventConfig {
        subscribers_to_notify: Notify::All,
        clear_after_notification: Clear::Nothing,
    });

    event.notify().unwrap();

    assert_eq!(0, event.times_subscribers_notified());
    assert_eq!(0, event.times_subscribers_mut_notified());
    assert_eq!(0, event.times_func_subscribers_notified());
}

#[test]
fn clear_all_empties_every_collection_after_notify() {
    let mut event: Event<CountingSubscriber, AddTenSubscriber, _> = Event::new(EventConfig {
        subscribers_to_notify: Notify::All,
        clear_after_notification: Clear::All,
    });
    let invocations = Arc::new(AtomicU32::new(0));

    event.subscribe(SubscriberHandle::new(
        1,
        CountingSubscriber { invocations: invocations.clone() },
    ));
    event.subscribe_mut(MutableSubscriberHandle::new(2, AddTenSubscriber { value: 0 }));
    event.subscribe_as_fn(|| println!("Closure notified..."));

    event.notify().unwrap();

    assert!(event.get_subscribers().is_empty());
    assert!(event.get_subscribers_mut().is_empty());
    assert!(event.get_fn_subscribers().is_empty());
}

#[test]
fn only_fn_subscribers_config_leaves_read_only_counter_untouched() {
    let mut event: Event<CountingSubscriber, AddTenSubscriber, _> = Event::new(EventConfig {
        subscribers_to_notify: Notify::OnlyFnSubscribers,
        clear_after_notification: Clear::All,
    });
    let invocations = Arc::new(AtomicU32::new(0));

    event.subscribe(SubscriberHandle::new(
        1,
        CountingSubscriber { invocations: invocations.clone() },
    ));
    event.subscribe_as_fn(|| println!("Closure notified..."));

    event.notify().unwrap();

    assert_eq!(0, event.times_subscribers_notified());
    assert_eq!(1, event.times_func_subscribers_notified());
    assert_eq!(0, invocations.load(Ordering::SeqCst));
}

#[test]
fn mutating_cycle_adds_ten_and_counts_once() {
    let config = EventConfig {
        subscribers_to_notify: Notify::OnlySubscribersMut,
        clear_after_notification: Clear::Nothing,
    };
    let mut event = CountingEvent::new(config);
    let handle = MutableSubscriberHandle::new(1, AddTenSubscriber { value: 10 });

    event.subscribe_mut(handle.clone());
    event.notify().unwrap();

    assert_eq!(1, event.times_subscribers_mut_notified());
    assert_eq!(20, handle.take().unwrap().value);
}

#[test]
fn duplicate_registration_is_invoked_twice_and_removed_one_match_at_a_time() {
    let config = EventConfig {
        subscribers_to_notify: Notify::OnlySubscribers,
        clear_after_notification: Clear::Nothing,
    };
    let mut event = CountingEvent::new(config);
    let invocations = Arc::new(AtomicU32::new(0));
    let sub = SubscriberHandle::new(7, CountingSubscriber { invocations: invocations.clone() });

    event.subscribe(sub.clone());
    event.subscribe(sub.clone());
    event.notify().unwrap();

    assert_eq!(2, invocations.load(Ordering::SeqCst));

    event.unsubscribe(sub.clone()).unwrap();
    assert_eq!(1, event.get_subscribers().len());
    event.unsubscribe(sub.clone()).unwrap();
    assert!(event.get_subscribers().is_empty());
    assert!(event.unsubscribe(sub.clone()).is_err());
}

#[test]
fn clearing_leaves_lifetime_counters_untouched() {
    let config = EventConfig {
        subscribers_to_notify: Notify::OnlySubscribers,
        clear_after_notification: Clear::OnlySubscribers,
    };
    let mut event = CountingEvent::new(config);
    let invocations = Arc::new(AtomicU32::new(0));

    event.subscribe(SubscriberHandle::new(
        1,
        CountingSubscriber { invocations: invocations.clone() },
    ));
    event.notify().unwrap();
    event.notify().unwrap();

    assert!(event.get_subscribers().is_empty());
    assert_eq!(1, event.times_subscribers_notified());
}

#[test]
fn subscriber_handle_clone_refers_to_the_same_instance() {
    let invocations = Arc::new(AtomicU32::new(41));
    let handle = SubscriberHandle::new(
        9,
        CountingSubscriber { invocations: invocations.clone() },
    );

    let copy = handle.clone();

    assert_eq!(9, copy.id());
    assert_eq!(41, copy.get().invocations.load(Ordering::SeqCst));
    copy.get().update();
    assert_eq!(42, handle.get().invocations.load(Ordering::SeqCst));
}
