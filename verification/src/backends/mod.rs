//! Backends: the sinks that the scheduler feeds, each through a channel of
//! its own.

pub mod midi;

use crate::event::Event;
use std::sync::mpsc::Receiver;
use vstd::prelude::*;

verus! {

/// `std::sync::mpsc::Receiver`: the receiving end of a channel. Nothing is
/// known of what is inside one.
#[verifier::external_type_specification]
#[verifier::external_body]
#[verifier::reject_recursive_types(T)]
pub struct ExReceiver<T>(Receiver<T>);

/// A sink for events. The scheduler calls `run` once, when it starts its
/// backends, and hands over the receiving end of the backend's channel.
///
/// `run` takes the receiver for good and returns without waiting for events:
/// it sets up whatever will consume them (a thread of its own, as a rule),
/// and that consumer reads the channel until it is closed.
pub trait Backend {
    fn run(&self, receiver: Receiver<Event>);
}

} // verus!
