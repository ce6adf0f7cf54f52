use std::sync::mpsc::{Receiver, RecvTimeoutError};
use std::sync::{Arc, Mutex};
use std::time::{Duration, Instant};
use tonic::backends::Backend;
use tonic::clock::Clock;
use tonic::event::Event;
use tonic::scheduler::{Dispatch, Scheduler, SchedulerError};
use tonic::time::{Moment, Span, Timeline};

type Slot = Arc<Mutex<Option<Receiver<Event>>>>;

/// A backend that keeps its receiver for the test to read, and notes its
/// place in the order in which the backends were run.
struct Probe {
    place: usize,
    slot: Slot,
    order: Arc<Mutex<Vec<usize>>>,
}

impl Backend for Probe {
    fn run(&self, receiver: Receiver<Event>) {
        self.order.lock().unwrap().push(self.place);
        *self.slot.lock().unwrap() = Some(receiver);
    }
}

struct Rig {
    scheduler: Scheduler,
    timeline: Timeline,
    slots: Vec<Slot>,
    order: Arc<Mutex<Vec<usize>>>,
}

fn rig(backends: usize) -> Rig {
    let timeline = Timeline::begin();
    let order = Arc::new(Mutex::new(Vec::new()));
    let mut slots: Vec<Slot> = Vec::new();
    let mut boxes: Vec<Box<dyn Backend>> = Vec::new();
    for place in 0..backends {
        let slot: Slot = Arc::new(Mutex::new(None));
        slots.push(slot.clone());
        boxes.push(Box::new(Probe { place, slot, order: order.clone() }));
    }
    Rig { scheduler: Scheduler::new(boxes, timeline), timeline, slots, order }
}

fn receivers(rig: &Rig) -> Vec<Receiver<Event>> {
    let mut taken: Vec<Receiver<Event>> = Vec::new();
    for slot in rig.slots.iter() {
        taken.push(slot.lock().unwrap().take().expect("the backend was not run"));
    }
    taken
}

fn note(value: &str, beat: u64) -> Event {
    Event::new(value.to_string(), beat)
}

fn fan_out_to(backends: usize) {
    let mut rig = rig(backends);
    assert_eq!(rig.scheduler.start_backends(), Ok(()));
    let receivers = receivers(&rig);
    assert_eq!(receivers.len(), backends);
    let event = note("60", 7);
    let jobs = rig.scheduler.schedule_at(rig.timeline.now(), event.clone()).unwrap();
    assert_eq!(jobs.len(), backends);
    for (place, job) in jobs.iter().enumerate() {
        assert_eq!(job.backend, place);
        assert_eq!(job.event, event);
    }
    for receiver in receivers.iter() {
        assert_eq!(receiver.recv_timeout(Duration::from_secs(10)), Ok(note("60", 7)));
    }
    for receiver in receivers.iter() {
        assert_eq!(
            receiver.recv_timeout(Duration::from_millis(100)),
            Err(RecvTimeoutError::Timeout)
        );
    }
}

#[test]
fn a_new_scheduler_is_not_started() {
    let rig = rig(3);
    assert!(!rig.scheduler.started());
    assert_eq!(rig.scheduler.backend_count(), 3);
    assert!(rig.order.lock().unwrap().is_empty());
}

#[test]
fn start_runs_every_backend_once_in_order() {
    let mut rig = rig(5);
    assert_eq!(rig.scheduler.start_backends(), Ok(()));
    assert!(rig.scheduler.started());
    assert_eq!(rig.scheduler.backend_count(), 5);
    assert_eq!(*rig.order.lock().unwrap(), vec![0, 1, 2, 3, 4]);
    assert_eq!(receivers(&rig).len(), 5);
}

#[test]
fn a_second_start_is_refused() {
    let mut rig = rig(2);
    assert_eq!(rig.scheduler.start_backends(), Ok(()));
    assert_eq!(rig.scheduler.start_backends(), Err(SchedulerError::NotStarted));
    assert!(rig.scheduler.started());
    assert_eq!(*rig.order.lock().unwrap(), vec![0, 1]);
    let receivers = receivers(&rig);
    let jobs = rig.scheduler.schedule_at(rig.timeline.now(), note("1", 1)).unwrap();
    assert_eq!(jobs.len(), 2);
    for receiver in receivers.iter() {
        assert_eq!(receiver.recv_timeout(Duration::from_secs(10)), Ok(note("1", 1)));
    }
}

#[test]
fn an_event_before_the_start_is_refused() {
    let rig = rig(2);
    assert_eq!(
        rig.scheduler.schedule_at(rig.timeline.now(), note("60", 1)),
        Err(SchedulerError::NotStarted)
    );
    assert!(rig.order.lock().unwrap().is_empty());
}

#[test]
fn an_event_reaches_no_backend_where_there_is_none() {
    fan_out_to(0);
}

#[test]
fn an_event_reaches_the_one_backend_once() {
    fan_out_to(1);
}

#[test]
fn an_event_reaches_each_of_five_backends_once() {
    fan_out_to(5);
}

#[test]
fn a_scheduler_without_backends_starts_and_schedules() {
    let mut rig = rig(0);
    assert_eq!(
        rig.scheduler.schedule_at(rig.timeline.now(), note("60", 1)),
        Err(SchedulerError::NotStarted)
    );
    assert_eq!(rig.scheduler.start_backends(), Ok(()));
    assert_eq!(rig.scheduler.schedule_at(rig.timeline.now(), note("60", 1)), Ok(vec![]));
}

#[test]
fn a_moment_that_has_passed_is_delivered_at_once() {
    let mut rig = rig(3);
    assert_eq!(rig.scheduler.start_backends(), Ok(()));
    let receivers = receivers(&rig);
    let now = rig.timeline.now();
    let stale = Moment { nanos: now.nanos - 10_000_000 };
    let jobs = rig.scheduler.schedule_at(stale, note("65", 2)).unwrap();
    assert_eq!(jobs.len(), 3);
    for job in jobs.iter() {
        assert_eq!(job.delay, Span { nanos: 0 });
    }
    for receiver in receivers.iter() {
        assert_eq!(receiver.recv_timeout(Duration::from_secs(10)), Ok(note("65", 2)));
    }
}

#[test]
fn a_moment_before_the_origin_is_delivered_at_once() {
    let mut rig = rig(1);
    assert_eq!(rig.scheduler.start_backends(), Ok(()));
    let receivers = receivers(&rig);
    let jobs = rig.scheduler.schedule_at(Moment { nanos: i64::MIN }, note("65", 2)).unwrap();
    assert_eq!(jobs[0].delay, Span { nanos: 0 });
    assert_eq!(receivers[0].recv_timeout(Duration::from_secs(10)), Ok(note("65", 2)));
}

#[test]
fn no_event_arrives_before_its_moment() {
    let mut rig = rig(2);
    assert_eq!(rig.scheduler.start_backends(), Ok(()));
    let receivers = receivers(&rig);
    let begun = Instant::now();
    let now = rig.timeline.now();
    let at = Moment { nanos: now.nanos + 200_000_000 };
    let jobs = rig.scheduler.schedule_at(at, note("73", 3)).unwrap();
    for job in jobs.iter() {
        assert!(job.delay.nanos <= 200_000_000);
    }
    for receiver in receivers.iter() {
        assert_eq!(receiver.recv_timeout(Duration::from_secs(10)), Ok(note("73", 3)));
        assert!(begun.elapsed() >= Duration::from_millis(200));
    }
}

#[test]
fn a_job_waits_for_the_time_that_is_left() {
    let mut rig = rig(2);
    assert_eq!(rig.scheduler.start_backends(), Ok(()));
    let receivers = receivers(&rig);
    let event = note("40", 9);
    let now = Moment { nanos: 1_000_000 };
    let at = Moment { nanos: 3_500_000 };
    assert_eq!(
        rig.scheduler.dispatch(1, now, at, &event),
        Dispatch { backend: 1, delay: Span { nanos: 2_500_000 }, event: note("40", 9) }
    );
    assert_eq!(receivers[1].recv_timeout(Duration::from_secs(10)), Ok(note("40", 9)));
    assert_eq!(
        receivers[0].recv_timeout(Duration::from_millis(100)),
        Err(RecvTimeoutError::Timeout)
    );
}

#[test]
fn a_job_for_a_moment_that_has_passed_does_not_wait() {
    let mut rig = rig(1);
    assert_eq!(rig.scheduler.start_backends(), Ok(()));
    let receivers = receivers(&rig);
    let event = note("43", 2);
    let now = Moment { nanos: 10_000_000 };
    assert_eq!(
        rig.scheduler.dispatch(0, now, Moment { nanos: 0 }, &event),
        Dispatch { backend: 0, delay: Span { nanos: 0 }, event: note("43", 2) }
    );
    assert_eq!(
        rig.scheduler.dispatch(0, now, now, &event),
        Dispatch { backend: 0, delay: Span { nanos: 0 }, event: note("43", 2) }
    );
    assert_eq!(receivers[0].recv_timeout(Duration::from_secs(10)), Ok(note("43", 2)));
    assert_eq!(receivers[0].recv_timeout(Duration::from_secs(10)), Ok(note("43", 2)));
}

#[test]
fn a_backend_that_hung_up_troubles_nobody() {
    let mut rig = rig(2);
    assert_eq!(rig.scheduler.start_backends(), Ok(()));
    let mut receivers = receivers(&rig);
    let listening = receivers.pop().unwrap();
    drop(receivers);
    let jobs = rig.scheduler.schedule_at(rig.timeline.now(), note("81", 4)).unwrap();
    assert_eq!(jobs.len(), 2);
    assert_eq!(listening.recv_timeout(Duration::from_secs(10)), Ok(note("81", 4)));
    let more = rig.scheduler.schedule_at(rig.timeline.now(), note("86", 5)).unwrap();
    assert_eq!(more.len(), 2);
    assert_eq!(listening.recv_timeout(Duration::from_secs(10)), Ok(note("86", 5)));
}

#[test]
fn events_are_scheduled_at_the_moments_of_their_beats() {
    let begun = Instant::now();
    let clock = Clock::new(6_000).unwrap();
    let timeline = clock.timeline();
    let slot: Slot = Arc::new(Mutex::new(None));
    let order = Arc::new(Mutex::new(Vec::new()));
    let probe = Probe { place: 0, slot: slot.clone(), order };
    let mut scheduler = Scheduler::new(vec![Box::new(probe)], timeline);
    assert_eq!(scheduler.start_backends(), Ok(()));
    let receiver = slot.lock().unwrap().take().unwrap();
    let event = note("60", 20);
    let at = clock.beat_at(event.beat);
    assert_eq!(at, Moment { nanos: 200_000_000 });
    let jobs = scheduler.schedule_at(at, event).unwrap();
    assert_eq!(jobs.len(), 1);
    assert_eq!(receiver.recv_timeout(Duration::from_secs(10)), Ok(note("60", 20)));
    assert!(begun.elapsed() >= Duration::from_millis(200));
}

#[test]
fn an_event_prints_its_fields() {
    let event = Event::new("60".to_string(), 4);
    assert_eq!(format!("{:?}", event), "Event { value: \"60\", beat: 4 }");
}

#[test]
fn events_are_their_payload_and_their_beat() {
    let event = Event::new("60".to_string(), 4);
    assert_eq!(event.value, "60");
    assert_eq!(event.beat, 4);
    let copy = event.clone();
    assert_eq!(copy, event);
    assert_ne!(copy, Event::new("60".to_string(), 5));
    assert_ne!(copy, Event::new("61".to_string(), 4));
}
