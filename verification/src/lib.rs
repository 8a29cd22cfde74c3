//! An observer-pattern library: an event holds ordered collections of
//! subscribers — read-only, mutating, and bare closures — and, on
//! trigger, notifies the kinds its configuration selects, counts each
//! notified non-empty kind once per cycle, and finally clears the
//! collections its clear policy names.
//!
//! [`events::Event`] dispatches synchronously on the calling thread;
//! [`event_async::EventAsync`] spawns one unit of work per subscriber
//! and waits for all of them before returning. Registrants are held
//! under identity-bearing handles ([`subscriber::SubscriberHandle`],
//! [`subscriber::MutableSubscriberHandle`]); removal matches handles by
//! their identity tokens, never by comparing instance contents.
//! [`triggers`] holds the decision logic of the derive-style helper
//! that emits one trigger method per event-typed field of a record.

pub mod event_async;
pub mod events;
pub mod subscriber;
pub mod triggers;
