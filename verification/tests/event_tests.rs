use rustvent::events::{Clear, Event, EventConfig, EventError, Notify};
use rustvent::subscriber::{
    MutableSubscriberHandle, Subscriber, SubscriberHandle, SubscriberMut,
};

struct SomeSubscriber {}

struct MutSubscriber {
    mutate_field_int: u8,
}

impl Subscriber for SomeSubscriber {
    fn update(&self) {
        println!("SomeSubscriber was notified...");
    }
}

impl SubscriberMut for MutSubscriber {
    fn update_mut(&mut self) {
        self.mutate_field_int += 10;
    }
}

type SomeEvent = Event<SomeSubscriber, MutSubscriber, fn()>;

#[test]
fn event_subscriber_can_subscribe() {
    let subscriber = SomeSubscriber {};
    let mut event = SomeEvent::default();
    let sub = SubscriberHandle::new(1, subscriber);

    event.subscribe(sub.clone());

    assert_eq!(1, event.get_subscribers().len());
}

#[test]
fn event_subscriber_mut_can_subscribe() {
    let subscriber = MutSubscriber { mutate_field_int: 10 };
    let mut event = SomeEvent::default();
    let rc_sub = MutableSubscriberHandle::new(1, subscriber);
    event.subscribe_mut(rc_sub.clone());

    assert_eq!(1, event.get_subscribers_mut().len());
}

#[test]
fn event_subscriber_can_unsubscribe() {
    let some_subscriber = SomeSubscriber {};
    let another_subscriber = SomeSubscriber {};

    let mut event = SomeEvent::default();
    let rc_some_sub = SubscriberHandle::new(1, some_subscriber);
    let rc_another_sub = SubscriberHandle::new(2, another_subscriber);

    event.subscribe(rc_some_sub.clone());
    event.subscribe(rc_another_sub.clone());

    event.unsubscribe(rc_some_sub.clone()).unwrap();

    assert_eq!(event.get_subscribers().len(), 1);
    assert!(event.get_subscribers()[0].id() == rc_another_sub.id())
}

#[test]
fn event_subscriber_mut_can_unsubscribe() {
    let subscriber = MutSubscriber { mutate_field_int: 10 };

    let mut event = SomeEvent::default();
    let rc_sub = MutableSubscriberHandle::new(1, subscriber);

    event.subscribe_mut(rc_sub.clone());
    event.unsubscribe_mut(rc_sub.clone()).unwrap();

    assert!(event.get_subscribers_mut().is_empty());
}

#[test]
fn event_subscriber_is_notified() {
    let subscriber = SomeSubscriber {};
    let mut event = SomeEvent::default();
    let rc_sub = SubscriberHandle::new(1, subscriber);

    event.subscribe(rc_sub.clone());
    event.notify().unwrap();

    assert_eq!(1, event.times_subscribers_notified());
}

#[test]
fn event_subscriber_mut_is_notified() {
    let subscriber = MutSubscriber { mutate_field_int: 10 };
    let mut event = SomeEvent::default();
    let rc_sub = MutableSubscriberHandle::new(1, subscriber);

    event.subscribe_mut(rc_sub.clone());
    event.notify().unwrap();

    assert_eq!(1, event.times_subscribers_mut_notified());
    assert_eq!(20, rc_sub.take().unwrap().mutate_field_int);
}

#[test]
fn event_subscriber_mut_multiple_immutable_borrows_of_subscribers_is_valid() {
    let subscriber = MutSubscriber { mutate_field_int: 10 };

    let rc_sub = MutableSubscriberHandle::new(1, subscriber);
    let first_look = rc_sub.take().unwrap();
    let first_value = first_look.mutate_field_int;
    assert!(rc_sub.put(first_look).is_ok());

    assert_eq!(10, first_value);
    assert_eq!(10, rc_sub.take().unwrap().mutate_field_int)
}

#[test]
fn event_exclusive_access_is_released_only_by_restoring() {
    let subscriber = MutSubscriber { mutate_field_int: 10 };
    let sub = MutableSubscriberHandle::new(1, subscriber);

    let held = sub.take().unwrap();

    assert!(sub.take().is_none());

    assert!(sub.put(held).is_ok());
    assert_eq!(10, sub.take().unwrap().mutate_field_int);
}

#[test]
fn event_notify_fails_while_subscriber_mut_is_held_elsewhere() {
    let mut event = SomeEvent::default();
    let sub = MutableSubscriberHandle::new(1, MutSubscriber { mutate_field_int: 10 });
    event.subscribe_mut(sub.clone());

    let held = sub.take().unwrap();
    let result = event.notify();

    assert_eq!(result, Err(EventError::ExclusiveAccessViolation));
    assert_eq!(0, event.times_subscribers_mut_notified());
    assert_eq!(1, event.get_subscribers_mut().len());
    assert_eq!(10, held.mutate_field_int);
}

#[test]
fn event_fails_if_type_did_not_subscribe_before_removing() {
    let mut some_event = SomeEvent::default();
    let sub = SubscriberHandle::new(1, SomeSubscriber {});

    let result = some_event.unsubscribe(sub.clone());

    assert_eq!(result, Err(EventError::SubscriberNotFound));
}

#[test]
fn event_fails_if_type_did_not_subscribe_mut_before_removing() {
    let subscriber = MutSubscriber { mutate_field_int: 10 };
    let mut event = SomeEvent::default();
    let rc_sub = MutableSubscriberHandle::new(1, subscriber);

    let result = event.unsubscribe_mut(rc_sub.clone());

    assert_eq!(result, Err(EventError::SubscriberNotFound));
}

#[test]
fn event_subscribe_as_closure_works() {
    let mut some_event: Event<SomeSubscriber, MutSubscriber, _> = Event::default();
    some_event.subscribe_as_fn(|| println!("Closure: run some logic..."));

    assert_eq!(some_event.get_fn_subscribers().len(), 1);
}

#[test]
fn event_notify_fn_subscribers_works() {
    let mut some_event: Event<SomeSubscriber, MutSubscriber, _> = Event::default();
    some_event.subscribe_as_fn(|| println!("Closure: run some logic..."));
    some_event.notify().unwrap();
}

struct BusinessSubscriber {}

impl Subscriber for BusinessSubscriber {
    fn update(&self) {
        println!("Run some logic...");
    }
}

type BusinessEvent = Event<BusinessSubscriber, MutSubscriber, fn()>;

struct BusinessLogic {
    process_completed: BusinessEvent,
    process_error: BusinessEvent,
}

impl BusinessLogic {
    fn new(process_completed: BusinessEvent, process_error: BusinessEvent) -> Self {
        BusinessLogic { process_completed, process_error }
    }

    fn on_process_completed(&mut self) {
        self.process_completed.notify().unwrap();
    }
}

impl Default for BusinessLogic {
    fn default() -> Self {
        BusinessLogic::new(BusinessEvent::default(), BusinessEvent::default())
    }
}

#[test]
fn type_can_subscribe_to_event() {
    let subscriber = BusinessSubscriber {};
    let mut logic = BusinessLogic::default();

    let rc_sub = SubscriberHandle::new(1, subscriber);

    logic.process_completed.subscribe(rc_sub.clone());
    logic.on_process_completed();

    assert_eq!(1, logic.process_completed.times_subscribers_notified());
}

#[test]
fn type_can_call_method_on_self_when_notified() {
    struct Logic {
        process_completed: BusinessEvent,
    }

    impl Logic {
        fn on_process_completed(&mut self) {
            self.process_completed.notify().unwrap();
        }

        fn notify_subscribers(&mut self) {
            self.on_process_completed();
        }
    }

    let subscriber = BusinessSubscriber {};
    let mut logic = Logic { process_completed: BusinessEvent::default() };

    let rc_sub = SubscriberHandle::new(1, subscriber);

    logic.process_completed.subscribe(rc_sub.clone());
    logic.notify_subscribers();

    assert_eq!(1, logic.process_completed.times_subscribers_notified());
}

#[test]
fn multiple_calls_to_event_is_not_valid_if_using_event_defaults() {
    let subscriber = BusinessSubscriber {};
    let mut logic = BusinessLogic::default();

    let rc_sub = SubscriberHandle::new(1, subscriber);

    logic.process_completed.subscribe(rc_sub.clone());
    logic.on_process_completed();
    logic.on_process_completed();

    assert_eq!(1, logic.process_completed.times_subscribers_notified());
}

#[test]
fn closure_can_subscribe_to_an_event() {
    let config = EventConfig {
        subscribers_to_notify: Notify::OnlyFnSubscribers,
        clear_after_notification: Clear::All,
    };

    let mut logic = BusinessLogic::new(BusinessEvent::new(config), BusinessEvent::default());

    logic.process_completed.subscribe_as_fn(|| println!("Closure: run some logic..."));
    logic.process_completed.notify().unwrap();

    assert_eq!(1, logic.process_completed.times_func_subscribers_notified());
}

#[test]
fn closure_is_only_notified_one_time() {
    let config = EventConfig {
        subscribers_to_notify: Notify::OnlyFnSubscribers,
        clear_after_notification: Clear::All,
    };

    let mut logic = BusinessLogic::new(BusinessEvent::new(config), BusinessEvent::default());

    logic.process_completed.subscribe_as_fn(|| println!("Closure: run some logic..."));
    logic.process_completed.notify().unwrap();
    logic.process_completed.notify().unwrap();

    assert_eq!(1, logic.process_completed.times_func_subscribers_notified());
}

#[test]
fn closure_is_notified_twice() {
    let config = EventConfig {
        subscribers_to_notify: Notify::OnlyFnSubscribers,
        clear_after_notification: Clear::Nothing,
    };

    let mut logic = BusinessLogic::new(BusinessEvent::new(config), BusinessEvent::default());

    logic.process_completed.subscribe_as_fn(|| println!("Closure: run some logic..."));
    logic.process_completed.notify().unwrap();
    logic.process_completed.notify().unwrap();

    assert_eq!(2, logic.process_completed.times_func_subscribers_notified());
    assert_eq!(1, logic.process_completed.get_fn_subscribers().len());
}
