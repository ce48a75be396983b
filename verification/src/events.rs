//! Trusted boundary to the `event_listener` crate.
//!
//! A buffer's wake-up event is an `event_listener::Event`; waiters hold an
//! `event_listener::EventListener`. Both are opaque here: the library's own
//! contracts track notifications through a ghost epoch counter beside the
//! event, and these wrappers only perform the calls.

use vstd::prelude::*;

verus! {

#[verifier::external_type_specification]
#[verifier::external_body]
#[verifier::reject_recursive_types(T)]
pub struct ExEvent<T>(event_listener::Event<T>);

#[verifier::external_type_specification]
#[verifier::external_body]
#[verifier::reject_recursive_types(T)]
pub struct ExEventListener<T>(event_listener::EventListener<T>);

/// Relies on `event_listener::Event::new`: returns a fresh event with no
/// registered listeners.
#[verifier::external_body]
pub(crate) fn new_event() -> event_listener::Event {
    event_listener::Event::new()
}

/// Relies on `event_listener::Event::notify`: wakes every listener currently
/// registered on the event.
#[verifier::external_body]
pub(crate) fn notify_all_listeners(event: &event_listener::Event) {
    event.notify(usize::MAX);
}

/// Relies on `event_listener::Event::listen`: registers a new listener on the
/// event; a later notify on the same event wakes it. Dropping the listener
/// deregisters it without side effects.
#[verifier::external_body]
pub(crate) fn listen_on(event: &event_listener::Event) -> event_listener::EventListener {
    event.listen()
}

} // verus!
