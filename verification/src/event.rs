//! The event: a payload bound for the backends, and the beat it is due at.

use vstd::prelude::*;

verus! {

/// A payload and the index of the beat at which it is due. The payload means
/// nothing to the clock or the scheduler; each backend reads it its own way.
#[derive(Debug, PartialEq, Eq)]
pub struct Event {
    pub value: String,
    pub beat: u64,
}

impl Event {
    /// The event that carries `value` and is due at `beat`.
    pub fn new(value: String, beat: u64) -> (event: Event)
        ensures
            event.value == value,
            event.beat == beat,
    {
        Event { value, beat }
    }
}

impl Clone for Event {
    /// An independent copy, equal to the event in payload and beat.
    fn clone(&self) -> (copy: Event)
        ensures
            copy == *self,
    {
        Event { value: self.value.clone(), beat: self.beat }
    }
}

} // verus!
