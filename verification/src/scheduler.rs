//! The scheduler: one channel to each backend, and a pool of workers that
//! send every event down every channel when its moment has come.

use crate::backends::Backend;
use crate::event::Event;
use crate::time::{elapsed_between, Moment, Span, Timeline};
use scheduled_thread_pool::ScheduledThreadPool;
use std::sync::mpsc::{Receiver, Sender};
use std::time::Duration;
use vstd::prelude::*;

verus! {

/// `std::sync::mpsc::Sender`: the sending end of a channel. Nothing is known
/// of what is inside one.
#[verifier::external_type_specification]
#[verifier::external_body]
#[verifier::reject_recursive_types(T)]
pub struct ExSender<T>(Sender<T>);

/// `scheduled_thread_pool::ScheduledThreadPool`: the pool of workers. Nothing
/// is known of what is inside one.
#[verifier::external_type_specification]
#[verifier::external_body]
pub struct ExScheduledThreadPool(ScheduledThreadPool);

/// `num_cpus::get`: the number of processors that the machine offers. Its
/// documentation promises that this is at least 1, and no more is claimed.
#[verifier::external_body]
fn available_workers() -> (workers: usize)
    ensures
        workers >= 1,
{
    num_cpus::get()
}

/// `ScheduledThreadPool::new`: a pool of `workers` threads. It panics when
/// asked for no threads, so the caller must ask for at least one. Nothing is
/// claimed of the pool.
#[verifier::external_body]
fn new_pool(workers: usize) -> (pool: ScheduledThreadPool)
    requires
        workers > 0,
{
    ScheduledThreadPool::new(workers)
}

/// `std::sync::mpsc::channel`: the two ends of a new channel for events.
/// Nothing is claimed of them.
#[verifier::external_body]
fn open_channel() -> (ends: (Sender<Event>, Receiver<Event>)) {
    std::sync::mpsc::channel()
}

/// `Sender::clone`: one more sending end of the same channel. Nothing is
/// claimed of it.
#[verifier::external_body]
fn clone_sender(producer: &Sender<Event>) -> (copy: Sender<Event>) {
    producer.clone()
}

/// `Sender::send`: puts `event` on the channel and tells whether a receiver
/// was still there to take it. Which of the two happens is the receiver's
/// doing, so nothing is claimed of the answer.
#[verifier::external_body]
fn send_event(producer: &Sender<Event>, event: Event) -> (sent: bool) {
    producer.send(event).is_ok()
}

/// `ScheduledThreadPool::execute_after`: hands the pool a job that, once
/// `delay_nanos` nanoseconds have passed, sends `event` down `producer`. The
/// call returns at once, and nothing is claimed of what it has done. The
/// pool's handle for the job is dropped, so the job cannot be taken back.
///
/// The pool adds the delay to the current instant, and that sum must be an
/// instant. No delay that fits the parameter is longer than some 585 years,
/// which is taken to be within the reach of an instant on every platform.
#[verifier::external_body]
fn submit_after(pool: &ScheduledThreadPool, delay_nanos: u64, producer: Sender<Event>, event: Event) {
    pool.execute_after(Duration::from_nanos(delay_nanos), move || deliver(&producer, event));
}

/// What a job does when its delay is over: it sends the event. A backend that
/// has hung up misses the event, and nobody else is troubled by that.
fn deliver(producer: &Sender<Event>, event: Event) {
    let _ = send_event(producer, event);
}

/// Why the scheduler refused a call.
#[derive(Clone, Copy, Debug, PartialEq, Eq, Structural)]
pub enum SchedulerError {
    /// The call came on the wrong side of the start of the backends: an
    /// event before it, or a second start after it.
    NotStarted,
}

/// One job that the scheduler has handed to its pool: after `delay`, a copy
/// of `event` goes to the backend with index `backend`.
#[derive(Debug, PartialEq, Eq)]
pub struct Dispatch {
    pub backend: usize,
    pub delay: Span,
    pub event: Event,
}

/// The delay of a job handed over at `now` for the moment `at`: the time left
/// until `at`, and none where `at` has passed.
pub open spec fn delay_until(now: Moment, at: Moment) -> Span {
    Span { nanos: elapsed_between(now.nanos as int, at.nanos as int) as u128 }
}

/// A job handed over at `now` is never due before `at`: it is due at `at`
/// where `at` is still to come, and at once where `at` has passed.
pub proof fn law_delay_reaches_the_moment(now: Moment, at: Moment)
    ensures
        now.nanos + delay_until(now, at).nanos >= at.nanos,
        at.nanos >= now.nanos ==> now.nanos + delay_until(now, at).nanos == at.nanos,
        at.nanos <= now.nanos ==> delay_until(now, at).nanos == 0,
{
}

/// What a scheduler is, as far as its contracts go.
pub struct SchedulerView {
    /// Whether the backends have been started.
    pub started: bool,
    /// The registered backends, in the order of their registration: the
    /// order in which they are started and in which every event goes out.
    pub backends: Seq<Box<dyn Backend>>,
    /// The number of channels that are open to them.
    pub channels: nat,
}

/// A scheduler with its backends, in the order in which they were
/// registered. Once the backends are started, it holds the sending end of
/// each backend's channel.
pub struct Scheduler {
    thread_pool: ScheduledThreadPool,
    producers: Vec<Sender<Event>>,
    backends: Vec<Box<dyn Backend>>,
    timeline: Timeline,
    started: bool,
}

impl View for Scheduler {
    type V = SchedulerView;

    closed spec fn view(&self) -> SchedulerView {
        SchedulerView {
            started: self.started,
            backends: self.backends@,
            channels: self.producers@.len(),
        }
    }
}

impl Scheduler {
    #[verifier::type_invariant]
    spec fn wired(self) -> bool {
        self.started ==> self.producers@.len() == self.backends@.len()
    }

    /// The time line that the scheduler reads.
    pub closed spec fn line(&self) -> Timeline {
        self.timeline
    }

    /// A scheduler that holds `backends` in the order given and reads the
    /// time from `timeline`, with a pool of as many workers as the machine
    /// has processors. The backends are not started yet.
    pub fn new(backends: Vec<Box<dyn Backend>>, timeline: Timeline) -> (scheduler: Scheduler)
        ensures
            scheduler@ == (SchedulerView { started: false, backends: backends@, channels: 0 }),
            scheduler.line() == timeline,
    {
        let thread_pool = new_pool(available_workers());
        Scheduler { thread_pool, producers: Vec::new(), backends, timeline, started: false }
    }

    /// Whether the backends have been started.
    pub fn started(&self) -> (started: bool)
        ensures
            started == self@.started,
    {
        self.started
    }

    /// The number of registered backends.
    pub fn backend_count(&self) -> (count: usize)
        ensures
            count == self@.backends.len(),
    {
        self.backends.len()
    }

    /// Starts the backends: each gets a channel of its own, in the order of
    /// registration, and is run with the receiving end. The backends and
    /// their order stay as they are. This is done once; a second call is
    /// refused and changes nothing.
    pub fn start_backends(&mut self) -> (res: Result<(), SchedulerError>)
        ensures
            old(self)@.started <==> res is Err,
            res is Err ==> *final(self) == *old(self),
            res is Ok ==> final(self)@ == (SchedulerView {
                started: true,
                backends: old(self)@.backends,
                channels: old(self)@.backends.len(),
            }),
            final(self).line() == old(self).line(),
    {
        if self.started {
            return Err(SchedulerError::NotStarted);
        }
        let ghost before = self.backends@;
        let mut producers: Vec<Sender<Event>> = Vec::new();
        let mut i: usize = 0;
        while i < self.backends.len()
            invariant
                i <= self.backends@.len(),
                producers@.len() == i,
                self.backends@ == before,
            decreases self.backends@.len() - i,
        {
            let (sender, receiver) = open_channel();
            producers.push(sender);
            self.backends[i].run(receiver);
            i = i + 1;
        }
        self.producers = producers;
        self.started = true;
        Ok(())
    }

    /// Hands the pool the job for one backend: after the delay from `now`
    /// until `at`, a copy of `event` is sent down that backend's channel. An
    /// `at` that has passed gives a delay of zero.
    pub fn dispatch(&self, backend: usize, now: Moment, at: Moment, event: &Event) -> (job: Dispatch)
        requires
            self@.started,
            backend < self@.backends.len(),
        ensures
            job == (Dispatch { backend, delay: delay_until(now, at), event: *event }),
    {
        proof {
            use_type_invariant(self);
        }
        let delay = now.span_until(at);
        let producer = clone_sender(&self.producers[backend]);
        submit_after(&self.thread_pool, delay.nanos as u64, producer, event.clone());
        Dispatch { backend, delay, event: event.clone() }
    }

    /// Schedules `event` for the moment `at`: every backend gets one job, in
    /// the order of registration, and each job sends its own copy of the
    /// event after the time that is left until `at` when the job is handed
    /// over. The call does not wait for any of them. Before the backends are
    /// started it is refused.
    pub fn schedule_at(&self, at: Moment, event: Event) -> (res: Result<
        Vec<Dispatch>,
        SchedulerError,
    >)
        ensures
            !self@.started <==> res is Err,
            res matches Ok(jobs) ==> jobs@.len() == self@.backends.len() && forall|i: int|
                0 <= i < jobs@.len() ==> {
                    &&& (#[trigger] jobs@[i]).backend == i
                    &&& jobs@[i].event == event
                    &&& jobs@[i].delay.nanos <= elapsed_between(0, at.nanos as int)
                },
    {
        if !self.started {
            return Err(SchedulerError::NotStarted);
        }
        let count: usize = self.backends.len();
        let mut jobs: Vec<Dispatch> = Vec::new();
        let mut i: usize = 0;
        while i < count
            invariant
                i <= count,
                count == self@.backends.len(),
                self@.started,
                jobs@.len() == i,
                forall|k: int|
                    0 <= k < i ==> {
                        &&& (#[trigger] jobs@[k]).backend == k
                        &&& jobs@[k].event == event
                        &&& jobs@[k].delay.nanos <= elapsed_between(0, at.nanos as int)
                    },
            decreases count - i,
        {
            let now = self.timeline.now();
            let job = self.dispatch(i, now, at, &event);
            jobs.push(job);
            i = i + 1;
        }
        Ok(jobs)
    }
}

} // verus!
