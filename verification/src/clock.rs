//! The clock: beats and bars at a tempo, laid out on a time line from two
//! anchors, and the retuning that moves the anchors.

use crate::continuity::lemma_retuning_keeps_index;
use crate::time::{elapsed_between, Moment, Span, Timeline};
use vstd::arithmetic::div_mod::*;
use vstd::arithmetic::mul::*;
use vstd::prelude::*;

verus! {

/// Beats in a bar of a clock that was never told otherwise.
pub const DEFAULT_BPB: u64 = 4;

/// Why a clock refused a call.
#[derive(Clone, Copy, Debug, PartialEq, Eq, Structural)]
pub enum ClockError {
    /// A tempo or a meter of zero.
    InvalidTempo,
    /// An anchor would have left the time line.
    OutOfRange,
}

/// The nanoseconds that `beat` beats last at `bpm` beats per minute. One beat
/// lasts the whole milliseconds of a minute divided by `bpm`.
pub open spec fn beat_nanos(beat: nat, bpm: nat) -> nat
    recommends
        bpm > 0,
{
    beat * ((60_000nat / bpm) * 1_000_000nat)
}

/// Whether `nanos` is a moment of a time line.
pub open spec fn is_moment(nanos: int) -> bool {
    i64::MIN <= nanos <= i64::MAX
}

/// The length of `beat` beats at `bpm` beats per minute.
pub fn beat_ms(beat: u64, bpm: u64) -> (span: Span)
    requires
        bpm > 0,
    ensures
        span.nanos == beat_nanos(beat as nat, bpm as nat),
{
    let tick: u64 = tick_nanos(bpm);
    assert(beat * tick <= u64::MAX * 60_000_000_000) by (nonlinear_arith)
        requires
            tick <= 60_000_000_000,
    ;
    Span { nanos: beat as u128 * tick as u128 }
}

/// The nanoseconds of one beat at `bpm`.
fn tick_nanos(bpm: u64) -> (tick: u64)
    requires
        bpm > 0,
    ensures
        tick == beat_nanos(1, bpm as nat),
        tick == 0 || 1_000_000 <= tick <= 60_000_000_000,
{
    let millis: u64 = 60_000 / bpm;
    assert(millis <= 60_000) by {
        lemma_div_is_ordered_by_denominator(60_000, 1, bpm as int);
    }
    millis * 1_000_000
}

/// The index of the period that `now` lies in, where periods of length
/// `period` are counted from `anchor` and the first has index 1. Before the
/// anchor no time has elapsed, so the index is 1 there too. A period without
/// length has no such index: all its periods are over once any time has
/// elapsed, and none has begun at the anchor itself.
pub open spec fn period_index(anchor: int, period: nat, now: int) -> nat {
    let elapsed = elapsed_between(anchor, now);
    if period > 0 {
        elapsed / period + 1
    } else if elapsed > 0 {
        u64::MAX as nat
    } else {
        0
    }
}

/// Where an anchor goes when the period changes from `old_period` to
/// `new_period` and the moment of index `index` is to stay where it was: that
/// moment as the old period gave it, less `index` new periods.
pub open spec fn reanchored(anchor: int, index: nat, old_period: nat, new_period: nat) -> int {
    anchor + index * old_period - index * new_period
}

/// Whether the anchor that `reanchored` gives for the index of `now` keeps
/// that index. With periods that have a length it does while the first
/// period lasts, and later where no more than one new period is left of the
/// current one. Without a length on either side it never does; without one
/// on both, nothing moves.
pub open spec fn keeps_index(anchor: int, old_period: nat, new_period: nat, now: int) -> bool {
    if old_period > 0 && new_period > 0 {
        let elapsed = elapsed_between(anchor, now);
        period_index(anchor, old_period, now) == 1 || old_period - elapsed % old_period
            <= new_period
    } else {
        old_period == 0 && new_period == 0
    }
}

/// Where an anchor goes when the period changes from `old_period` to
/// `new_period` at `now`. The index of the current period is to stay what it
/// is. Where the anchor that `reanchored` gives for that index keeps it, the
/// anchor goes there. Where it does not, because the period shrinks and more
/// than one new period is left of the current one, the current period begins
/// anew at `now`: the anchor goes as many new periods before `now` as there
/// are periods before the current one. A period without length has no index
/// to keep, and the anchor goes where `reanchored` puts it.
pub open spec fn retuned_anchor(anchor: int, old_period: nat, new_period: nat, now: int) -> int {
    let index = period_index(anchor, old_period, now);
    if old_period > 0 && new_period > 0 && !keeps_index(anchor, old_period, new_period, now) {
        now - (index - 1) * new_period
    } else {
        reanchored(anchor, index, old_period, new_period)
    }
}

/// What a clock is: two anchors on its time line, a tempo and a meter.
pub struct ClockView {
    /// The anchor of the beats, in nanoseconds from the origin.
    pub start: int,
    /// The anchor of the bars, in nanoseconds from the origin.
    pub bar_start: int,
    /// Beats per minute.
    pub bpm: nat,
    /// Beats per bar.
    pub bpb: nat,
}

impl ClockView {
    /// The nanoseconds of one beat.
    pub open spec fn tick(self) -> nat {
        beat_nanos(1, self.bpm)
    }

    /// The nanoseconds of one bar.
    pub open spec fn tock(self) -> nat {
        beat_nanos(self.bpb, self.bpm)
    }

    /// The moment of beat `beat`.
    pub open spec fn beat_at(self, beat: nat) -> int {
        self.start + beat * self.tick()
    }

    /// The moment of bar `bar`.
    pub open spec fn bar_at(self, bar: nat) -> int {
        self.bar_start + bar * self.tock()
    }

    /// The index of the beat that `now` lies in.
    pub open spec fn beat(self, now: int) -> nat {
        period_index(self.start, self.tick(), now)
    }

    /// The index of the bar that `now` lies in.
    pub open spec fn bar(self, now: int) -> nat {
        period_index(self.bar_start, self.tock(), now)
    }

    /// The clock after its beats were anchored so that `now` is the moment of
    /// beat `beat`.
    pub open spec fn started_at(self, now: int, beat: nat) -> ClockView {
        ClockView { start: reanchored(now, beat, 0, self.tick()), ..self }
    }

    /// The clock after its bars were anchored so that `now` is the moment of
    /// bar `bar`.
    pub open spec fn bar_started_at(self, now: int, bar: nat) -> ClockView {
        ClockView { bar_start: reanchored(now, bar, 0, self.tock()), ..self }
    }

    /// The clock after a change of tempo at `now`: both anchors move as
    /// `retuned_anchor` says, so that `now` lies in the beat and in the bar
    /// that it lay in.
    pub open spec fn with_bpm(self, now: int, bpm: nat) -> ClockView {
        ClockView {
            start: retuned_anchor(self.start, self.tick(), beat_nanos(1, bpm), now),
            bar_start: retuned_anchor(
                self.bar_start,
                self.tock(),
                beat_nanos(self.bpb, bpm),
                now,
            ),
            bpm,
            bpb: self.bpb,
        }
    }

    /// The clock after a change of meter at `now`: the bar anchor moves as in
    /// a change of tempo, the beats stay as they are.
    pub open spec fn with_bpb(self, now: int, bpb: nat) -> ClockView {
        ClockView {
            bar_start: retuned_anchor(
                self.bar_start,
                self.tock(),
                beat_nanos(bpb, self.bpm),
                now,
            ),
            bpb,
            ..self
        }
    }

    /// Whether both anchors are moments of the time line.
    pub open spec fn in_range(self) -> bool {
        is_moment(self.start) && is_moment(self.bar_start)
    }
}

/// How far `now` lies inside its period: the time since the period began. A
/// period without length has no inside.
pub open spec fn period_phase(anchor: int, period: nat, now: int) -> nat {
    if period > 0 {
        elapsed_between(anchor, now) % period
    } else {
        0
    }
}

/// A position inside a period, as the fraction `elapsed / period`. The
/// phases that a clock gives of a period with a length are at least 0 and
/// less than 1.
#[derive(Clone, Copy, Debug, PartialEq, Eq, Structural)]
pub struct Phase {
    /// The time since the period began.
    pub elapsed: Span,
    /// The length of the period.
    pub period: Span,
}

/// Successive beats lie one tick apart, and a tick is the whole milliseconds
/// of a minute divided by the tempo. Successive bars lie one tock apart, and
/// a tock is as many ticks as the bar has beats.
pub proof fn law_even_spacing(clock: ClockView, index: nat)
    requires
        clock.bpm > 0,
    ensures
        clock.beat_at(index + 1) - clock.beat_at(index) == clock.tick(),
        clock.bar_at(index + 1) - clock.bar_at(index) == clock.tock(),
        clock.tick() == (60_000nat / clock.bpm) * 1_000_000nat,
        clock.tock() == clock.bpb * clock.tick(),
{
    assert((index + 1) * clock.tick() == index * clock.tick() + clock.tick())
        by (nonlinear_arith);
    assert((index + 1) * clock.tock() == index * clock.tock() + clock.tock())
        by (nonlinear_arith);
}

/// A beat has a length at every tempo up to 60000 beats per minute, and at
/// none above: there a beat is shorter than a millisecond.
pub proof fn law_beat_length(bpm: nat)
    requires
        bpm > 0,
    ensures
        beat_nanos(1, bpm) > 0 <==> bpm <= 60_000,
{
    if bpm <= 60_000 {
        lemma_div_non_zero(60_000, bpm as int);
    } else {
        lemma_basic_div(60_000, bpm as int);
    }
}

/// The nanoseconds of `beats` beats of `tick` nanoseconds.
fn tock_nanos(beats: u64, tick: u64) -> (tock: u128)
    requires
        tick == 0 || 1_000_000 <= tick <= 60_000_000_000,
    ensures
        tock == beats * tick,
        beats > 0 ==> tock == 0 || 1_000_000 <= tock,
        tick == 0 ==> tock == 0,
        beats > 0 && tick > 0 ==> tock > 0,
{
    assert(beats * tick <= u64::MAX * 60_000_000_000) by (nonlinear_arith)
        requires
            tick <= 60_000_000_000,
    ;
    assert(beats > 0 && tick > 0 ==> tick <= beats * tick) by (nonlinear_arith);
    assert(tick == 0 ==> beats * tick == 0) by (nonlinear_arith);
    beats as u128 * tick as u128
}

/// The index of the period that `now` lies in.
fn index_of(anchor: Moment, period: u128, now: Moment) -> (index: u64)
    requires
        period == 0 || 2 <= period,
    ensures
        index == period_index(anchor.nanos as int, period as nat, now.nanos as int),
{
    let elapsed: u128 = anchor.span_until(now).nanos;
    if period == 0 {
        if elapsed == 0 {
            0
        } else {
            u64::MAX
        }
    } else {
        let whole: u128 = elapsed / period;
        assert(whole < u64::MAX) by {
            lemma_div_is_ordered_by_denominator(elapsed as int, 2, period as int);
        }
        (whole + 1) as u64
    }
}

/// How far `now` lies inside its period.
fn phase_of(anchor: Moment, period: u128, now: Moment) -> (phase: Phase)
    ensures
        phase.elapsed.nanos == period_phase(anchor.nanos as int, period as nat, now.nanos as int),
        phase.period.nanos == period,
        period > 0 ==> phase.elapsed.nanos < period,
{
    let elapsed: u128 = anchor.span_until(now).nanos;
    let inside: u128 = if period == 0 {
        0
    } else {
        elapsed % period
    };
    Phase { elapsed: Span { nanos: inside }, period: Span { nanos: period } }
}

/// The moment `reanchored` gives, where it is one of the time line.
fn shifted(anchor: Moment, index: u64, old_period: u128, new_period: u128) -> (res: Option<Moment>)
    ensures
        res is Some <==> is_moment(
            reanchored(anchor.nanos as int, index as nat, old_period as nat, new_period as nat),
        ),
        res matches Some(moment) ==> moment.nanos == reanchored(
            anchor.nanos as int,
            index as nat,
            old_period as nat,
            new_period as nat,
        ),
{
    let forward: bool = old_period >= new_period;
    let step: u128 = if forward {
        old_period - new_period
    } else {
        new_period - old_period
    };
    proof {
        if forward {
            lemma_mul_is_distributive_sub(index as int, old_period as int, new_period as int);
        } else {
            lemma_mul_is_distributive_sub(index as int, new_period as int, old_period as int);
        }
    }
    match (index as u128).checked_mul(step) {
        None => None,
        Some(way) => {
            if way > 0x1_0000_0000_0000_0000u128 {
                None
            } else {
                let target: i128 = if forward {
                    anchor.nanos as i128 + way as i128
                } else {
                    anchor.nanos as i128 - way as i128
                };
                if i64::MIN as i128 <= target && target <= i64::MAX as i128 {
                    Some(Moment { nanos: target as i64 })
                } else {
                    None
                }
            }
        },
    }
}

/// The moment `retuned_anchor` gives, where it is one of the time line.
fn retuned(anchor: Moment, old_period: u128, new_period: u128, now: Moment) -> (res: Option<Moment>)
    requires
        old_period == 0 || 2 <= old_period,
    ensures
        res is Some <==> is_moment(
            retuned_anchor(
                anchor.nanos as int,
                old_period as nat,
                new_period as nat,
                now.nanos as int,
            ),
        ),
        res matches Some(moment) ==> moment.nanos == retuned_anchor(
            anchor.nanos as int,
            old_period as nat,
            new_period as nat,
            now.nanos as int,
        ),
{
    let index: u64 = index_of(anchor, old_period, now);
    if old_period > 0 && new_period > 0 && index > 1 {
        let elapsed: u128 = anchor.span_until(now).nanos;
        let left: u128 = old_period - elapsed % old_period;
        if left > new_period {
            proof {
                lemma_mul_basics((index - 1) as int);
            }
            return shifted(now, index - 1, 0, new_period);
        }
    }
    shifted(anchor, index, old_period, new_period)
}

/// A clock of beats and bars. It reads the time from a time line that begins
/// when the clock is made, and all its moments are moments of that line.
#[derive(Debug)]
pub struct Clock {
    timeline: Timeline,
    start: Moment,
    bar_start: Moment,
    bpm: u64,
    bpb: u64,
}

impl View for Clock {
    type V = ClockView;

    closed spec fn view(&self) -> ClockView {
        ClockView {
            start: self.start.nanos as int,
            bar_start: self.bar_start.nanos as int,
            bpm: self.bpm as nat,
            bpb: self.bpb as nat,
        }
    }
}

impl Clone for Clock {
    /// A clock of its own with the same anchors, tempo and meter, on the
    /// same time line.
    fn clone(&self) -> (copy: Clock)
        ensures
            copy == *self,
    {
        proof {
            use_type_invariant(self);
        }
        Clock {
            timeline: self.timeline,
            start: self.start,
            bar_start: self.bar_start,
            bpm: self.bpm,
            bpb: self.bpb,
        }
    }
}

impl Clock {
    #[verifier::type_invariant]
    spec fn tuned(self) -> bool {
        self.bpm > 0 && self.bpb > 0
    }

    /// The time line that the clock reads.
    pub closed spec fn line(&self) -> Timeline {
        self.timeline
    }

    /// A clock at `bpm` beats per minute and four beats to the bar, with both
    /// anchors at the origin of a time line that begins now. A tempo of zero
    /// is refused.
    pub fn new(bpm: u64) -> (res: Result<Clock, ClockError>)
        ensures
            bpm == 0 <==> res == Err::<Clock, ClockError>(ClockError::InvalidTempo),
            bpm > 0 <==> res is Ok,
            res matches Ok(clock) ==> clock@ == (ClockView {
                start: 0,
                bar_start: 0,
                bpm: bpm as nat,
                bpb: DEFAULT_BPB as nat,
            }),
    {
        if bpm == 0 {
            return Err(ClockError::InvalidTempo);
        }
        let timeline = Timeline::begin();
        Ok(
            Clock {
                timeline,
                start: Moment { nanos: 0 },
                bar_start: Moment { nanos: 0 },
                bpm,
                bpb: DEFAULT_BPB,
            },
        )
    }

    /// The time line that the clock reads.
    pub fn timeline(&self) -> (timeline: Timeline)
        ensures
            timeline == self.line(),
    {
        self.timeline
    }

    /// The current moment on the clock's time line.
    pub fn now(&self) -> (moment: Moment)
        ensures
            0 <= moment.nanos,
    {
        self.timeline.now()
    }

    /// The anchor of the beats.
    pub fn start(&self) -> (moment: Moment)
        ensures
            moment.nanos == self@.start,
    {
        self.start
    }

    /// The anchor of the bars.
    pub fn bar_start(&self) -> (moment: Moment)
        ensures
            moment.nanos == self@.bar_start,
    {
        self.bar_start
    }

    /// Beats per minute; never zero.
    pub fn bpm(&self) -> (bpm: u64)
        ensures
            bpm == self@.bpm,
            bpm > 0,
    {
        proof {
            use_type_invariant(self);
        }
        self.bpm
    }

    /// Beats per bar; never zero.
    pub fn bpb(&self) -> (bpb: u64)
        ensures
            bpb == self@.bpb,
            bpb > 0,
    {
        proof {
            use_type_invariant(self);
        }
        self.bpb
    }

    /// The length of one beat.
    pub fn tick(&self) -> (span: Span)
        ensures
            span.nanos == self@.tick(),
    {
        proof {
            use_type_invariant(self);
        }
        beat_ms(1, self.bpm)
    }

    /// The length of one bar.
    pub fn tock(&self) -> (span: Span)
        ensures
            span.nanos == self@.tock(),
    {
        proof {
            use_type_invariant(self);
        }
        beat_ms(self.bpb, self.bpm)
    }

    /// The index of the beat that `now` lies in.
    pub fn beat_when(&self, now: Moment) -> (beat: u64)
        ensures
            beat == self@.beat(now.nanos as int),
    {
        proof {
            use_type_invariant(self);
        }
        let tick: u64 = tick_nanos(self.bpm);
        index_of(self.start, tick as u128, now)
    }

    /// The index of the bar that `now` lies in.
    pub fn bar_when(&self, now: Moment) -> (bar: u64)
        ensures
            bar == self@.bar(now.nanos as int),
    {
        proof {
            use_type_invariant(self);
        }
        let tock: u128 = tock_nanos(self.bpb, tick_nanos(self.bpm));
        index_of(self.bar_start, tock, now)
    }

    /// How far `now` lies inside its beat, as a fraction of the tick.
    pub fn beat_phase_when(&self, now: Moment) -> (phase: Phase)
        ensures
            phase.elapsed.nanos == period_phase(self@.start, self@.tick(), now.nanos as int),
            phase.period.nanos == self@.tick(),
            self@.tick() > 0 ==> phase.elapsed.nanos < phase.period.nanos,
    {
        proof {
            use_type_invariant(self);
        }
        let tick: u64 = tick_nanos(self.bpm);
        phase_of(self.start, tick as u128, now)
    }

    /// How far `now` lies inside its bar, as a fraction of the tock.
    pub fn bar_phase_when(&self, now: Moment) -> (phase: Phase)
        ensures
            phase.elapsed.nanos == period_phase(self@.bar_start, self@.tock(), now.nanos as int),
            phase.period.nanos == self@.tock(),
            self@.tock() > 0 ==> phase.elapsed.nanos < phase.period.nanos,
    {
        proof {
            use_type_invariant(self);
        }
        let tock: u128 = tock_nanos(self.bpb, tick_nanos(self.bpm));
        phase_of(self.bar_start, tock, now)
    }

    /// How far the current moment lies inside its beat: the phase of some
    /// moment of the time line that is not before its origin.
    pub fn beat_phase(&self) -> (phase: Phase)
        ensures
            phase.period.nanos == self@.tick(),
            exists|now: int|
                0 <= now <= i64::MAX && phase.elapsed.nanos == #[trigger] period_phase(
                    self@.start,
                    self@.tick(),
                    now,
                ),
    {
        let now = self.now();
        let phase = self.beat_phase_when(now);
        assert(phase.elapsed.nanos == period_phase(self@.start, self@.tick(), now.nanos as int));
        phase
    }

    /// How far the current moment lies inside its bar: the phase of some
    /// moment of the time line that is not before its origin.
    pub fn bar_phase(&self) -> (phase: Phase)
        ensures
            phase.period.nanos == self@.tock(),
            exists|now: int|
                0 <= now <= i64::MAX && phase.elapsed.nanos == #[trigger] period_phase(
                    self@.bar_start,
                    self@.tock(),
                    now,
                ),
    {
        let now = self.now();
        let phase = self.bar_phase_when(now);
        assert(phase.elapsed.nanos == period_phase(
            self@.bar_start,
            self@.tock(),
            now.nanos as int,
        ));
        phase
    }

    /// The index of the current beat: that of some moment of the time line
    /// that is not before its origin.
    pub fn beat(&self) -> (beat: u64)
        ensures
            exists|now: int| 0 <= now <= i64::MAX && beat == #[trigger] self@.beat(now),
    {
        let now = self.now();
        let beat: u64 = self.beat_when(now);
        assert(beat == self@.beat(now.nanos as int));
        beat
    }

    /// The index of the current bar: that of some moment of the time line
    /// that is not before its origin.
    pub fn bar(&self) -> (bar: u64)
        ensures
            exists|now: int| 0 <= now <= i64::MAX && bar == #[trigger] self@.bar(now),
    {
        let now = self.now();
        let bar: u64 = self.bar_when(now);
        assert(bar == self@.bar(now.nanos as int));
        bar
    }

    /// The moment of beat `beat`, where the time line reaches that far.
    pub fn checked_beat_at(&self, beat: u64) -> (res: Option<Moment>)
        ensures
            res is Some <==> self@.beat_at(beat as nat) <= i64::MAX,
            res matches Some(moment) ==> moment.nanos == self@.beat_at(beat as nat),
    {
        proof {
            use_type_invariant(self);
        }
        let tick: u64 = tick_nanos(self.bpm);
        proof {
            lemma_mul_nonnegative(beat as int, tick as int);
        }
        shifted(self.start, beat, tick as u128, 0)
    }

    /// The moment of bar `bar`, where the time line reaches that far.
    pub fn checked_bar_at(&self, bar: u64) -> (res: Option<Moment>)
        ensures
            res is Some <==> self@.bar_at(bar as nat) <= i64::MAX,
            res matches Some(moment) ==> moment.nanos == self@.bar_at(bar as nat),
    {
        proof {
            use_type_invariant(self);
        }
        let tock: u128 = tock_nanos(self.bpb, tick_nanos(self.bpm));
        proof {
            lemma_mul_nonnegative(bar as int, tock as int);
        }
        shifted(self.bar_start, bar, tock, 0)
    }

    /// The moment of beat `beat`: the anchor of the beats and `beat` ticks.
    /// Beats before the current one have moments too.
    pub fn beat_at(&self, beat: u64) -> (moment: Moment)
        requires
            self@.beat_at(beat as nat) <= i64::MAX,
        ensures
            moment.nanos == self@.beat_at(beat as nat),
    {
        match self.checked_beat_at(beat) {
            Some(moment) => moment,
            // Ruled out by what the caller has shown.
            None => self.start,
        }
    }

    /// The moment of bar `bar`: the anchor of the bars and `bar` tocks.
    pub fn bar_at(&self, bar: u64) -> (moment: Moment)
        requires
            self@.bar_at(bar as nat) <= i64::MAX,
        ensures
            moment.nanos == self@.bar_at(bar as nat),
    {
        match self.checked_bar_at(bar) {
            Some(moment) => moment,
            // Ruled out by what the caller has shown.
            None => self.bar_start,
        }
    }

    /// Anchors the beats so that `now` is the moment of beat `start_beat`.
    /// Where the anchor would leave the time line, the call is refused and
    /// the clock stays as it was.
    pub fn start_at_when(&mut self, now: Moment, start_beat: u64) -> (res: Result<(), ClockError>)
        ensures
            old(self)@.started_at(now.nanos as int, start_beat as nat).in_range() <==> res is Ok,
            res is Ok ==> final(self)@ == old(self)@.started_at(
                now.nanos as int,
                start_beat as nat,
            ),
            res is Err ==> res == Err::<(), ClockError>(ClockError::OutOfRange) && *final(self)
                == *old(self),
            final(self).line() == old(self).line(),
    {
        proof {
            use_type_invariant(&*self);
        }
        let tick: u64 = tick_nanos(self.bpm);
        match shifted(now, start_beat, 0, tick as u128) {
            Some(start) => {
                self.start = start;
                Ok(())
            },
            None => Err(ClockError::OutOfRange),
        }
    }

    /// Anchors the bars so that `now` is the moment of bar `start_bar`. Where
    /// the anchor would leave the time line, the call is refused and the
    /// clock stays as it was.
    pub fn bar_start_at_when(&mut self, now: Moment, start_bar: u64) -> (res: Result<
        (),
        ClockError,
    >)
        ensures
            old(self)@.bar_started_at(now.nanos as int, start_bar as nat).in_range() <==> res is Ok,
            res is Ok ==> final(self)@ == old(self)@.bar_started_at(
                now.nanos as int,
                start_bar as nat,
            ),
            res is Err ==> res == Err::<(), ClockError>(ClockError::OutOfRange) && *final(self)
                == *old(self),
            final(self).line() == old(self).line(),
    {
        proof {
            use_type_invariant(&*self);
        }
        let tock: u128 = tock_nanos(self.bpb, tick_nanos(self.bpm));
        match shifted(now, start_bar, 0, tock) {
            Some(bar_start) => {
                self.bar_start = bar_start;
                Ok(())
            },
            None => Err(ClockError::OutOfRange),
        }
    }

    /// Changes the tempo to `new_bpm` at `now`. The anchors move as
    /// `ClockView::with_bpm` says: where the old and the new beat have a
    /// length, `now` lies in the same beat and in the same bar after the
    /// change as before it. A tempo of zero is refused, and so is a change
    /// that would take an anchor off the time line; the clock then stays as
    /// it was.
    pub fn set_bpm_when(&mut self, now: Moment, new_bpm: u64) -> (res: Result<(), ClockError>)
        ensures
            new_bpm == 0 <==> res == Err::<(), ClockError>(ClockError::InvalidTempo),
            new_bpm > 0 && old(self)@.with_bpm(now.nanos as int, new_bpm as nat).in_range()
                <==> res is Ok,
            new_bpm > 0 && !old(self)@.with_bpm(now.nanos as int, new_bpm as nat).in_range()
                <==> res == Err::<(), ClockError>(ClockError::OutOfRange),
            res is Ok ==> final(self)@ == old(self)@.with_bpm(now.nanos as int, new_bpm as nat),
            res is Ok && old(self)@.tick() > 0 && beat_nanos(1, new_bpm as nat) > 0 ==> {
                &&& final(self)@.beat(now.nanos as int) == old(self)@.beat(now.nanos as int)
                &&& final(self)@.bar(now.nanos as int) == old(self)@.bar(now.nanos as int)
            },
            res is Err ==> *final(self) == *old(self),
            final(self).line() == old(self).line(),
    {
        if new_bpm == 0 {
            return Err(ClockError::InvalidTempo);
        }
        proof {
            use_type_invariant(&*self);
            lemma_retuning_keeps_index(
                self@.start,
                self@.tick(),
                beat_nanos(1, new_bpm as nat),
                now.nanos as int,
            );
            lemma_retuning_keeps_index(
                self@.bar_start,
                self@.tock(),
                beat_nanos(self@.bpb, new_bpm as nat),
                now.nanos as int,
            );
        }
        let tick: u64 = tick_nanos(self.bpm);
        let tock: u128 = tock_nanos(self.bpb, tick);
        let new_tick: u64 = tick_nanos(new_bpm);
        let new_tock: u128 = tock_nanos(self.bpb, new_tick);
        let new_start = retuned(self.start, tick as u128, new_tick as u128, now);
        let new_bar_start = retuned(self.bar_start, tock, new_tock, now);
        match (new_start, new_bar_start) {
            (Some(start), Some(bar_start)) => {
                self.start = start;
                self.bar_start = bar_start;
                self.bpm = new_bpm;
                Ok(())
            },
            _ => Err(ClockError::OutOfRange),
        }
    }

    /// Changes the meter to `new_bpb` at `now`. The bar anchor moves as
    /// `ClockView::with_bpb` says: where the beat has a length, `now` lies in
    /// the same bar after the change as before it. The beats are not touched.
    /// A meter of zero is refused, and so is a change that would take the
    /// anchor off the time line; the clock then stays as it was.
    pub fn set_bpb_when(&mut self, now: Moment, new_bpb: u64) -> (res: Result<(), ClockError>)
        ensures
            new_bpb == 0 <==> res == Err::<(), ClockError>(ClockError::InvalidTempo),
            new_bpb > 0 && old(self)@.with_bpb(now.nanos as int, new_bpb as nat).in_range()
                <==> res is Ok,
            new_bpb > 0 && !old(self)@.with_bpb(now.nanos as int, new_bpb as nat).in_range()
                <==> res == Err::<(), ClockError>(ClockError::OutOfRange),
            res is Ok ==> final(self)@ == old(self)@.with_bpb(now.nanos as int, new_bpb as nat),
            res is Ok ==> final(self)@.beat(now.nanos as int) == old(self)@.beat(now.nanos as int),
            res is Ok && old(self)@.tick() > 0 ==> final(self)@.bar(now.nanos as int) == old(
                self,
            )@.bar(now.nanos as int),
            res is Err ==> *final(self) == *old(self),
            final(self).line() == old(self).line(),
    {
        if new_bpb == 0 {
            return Err(ClockError::InvalidTempo);
        }
        proof {
            use_type_invariant(&*self);
            lemma_retuning_keeps_index(
                self@.bar_start,
                self@.tock(),
                beat_nanos(new_bpb as nat, self@.bpm),
                now.nanos as int,
            );
        }
        let tick: u64 = tick_nanos(self.bpm);
        let tock: u128 = tock_nanos(self.bpb, tick);
        let new_tock: u128 = tock_nanos(new_bpb, tick);
        match retuned(self.bar_start, tock, new_tock, now) {
            Some(bar_start) => {
                self.bar_start = bar_start;
                self.bpb = new_bpb;
                Ok(())
            },
            None => Err(ClockError::OutOfRange),
        }
    }

    /// Anchors the beats so that the current moment is that of beat
    /// `start_beat`.
    pub fn start_at(&mut self, start_beat: u64) -> (res: Result<(), ClockError>)
        ensures
            (forall|now: int|
                0 <= now <= i64::MAX ==> (#[trigger] old(self)@.started_at(
                    now,
                    start_beat as nat,
                )).in_range()) ==> res is Ok,
            res is Ok ==> exists|now: int|
                0 <= now <= i64::MAX && final(self)@ == #[trigger] old(self)@.started_at(
                    now,
                    start_beat as nat,
                ),
            res is Err ==> res == Err::<(), ClockError>(ClockError::OutOfRange) && *final(self)
                == *old(self),
            final(self).line() == old(self).line(),
    {
        let now = self.now();
        let res = self.start_at_when(now, start_beat);
        assert(res is Ok ==> self@ == old(self)@.started_at(now.nanos as int, start_beat as nat));
        res
    }

    /// Anchors the bars so that the current moment is that of bar
    /// `start_bar`.
    pub fn bar_start_at(&mut self, start_bar: u64) -> (res: Result<(), ClockError>)
        ensures
            (forall|now: int|
                0 <= now <= i64::MAX ==> (#[trigger] old(self)@.bar_started_at(
                    now,
                    start_bar as nat,
                )).in_range()) ==> res is Ok,
            res is Ok ==> exists|now: int|
                0 <= now <= i64::MAX && final(self)@ == #[trigger] old(self)@.bar_started_at(
                    now,
                    start_bar as nat,
                ),
            res is Err ==> res == Err::<(), ClockError>(ClockError::OutOfRange) && *final(self)
                == *old(self),
            final(self).line() == old(self).line(),
    {
        let now = self.now();
        let res = self.bar_start_at_when(now, start_bar);
        assert(res is Ok ==> self@ == old(self)@.bar_started_at(
            now.nanos as int,
            start_bar as nat,
        ));
        res
    }

    /// Changes the tempo to `new_bpm` at the current moment, which stays in
    /// its beat and in its bar where the old and the new beat have a length.
    pub fn set_bpm(&mut self, new_bpm: u64) -> (res: Result<(), ClockError>)
        ensures
            new_bpm == 0 <==> res == Err::<(), ClockError>(ClockError::InvalidTempo),
            new_bpm > 0 && (forall|now: int|
                0 <= now <= i64::MAX ==> (#[trigger] old(self)@.with_bpm(
                    now,
                    new_bpm as nat,
                )).in_range()) ==> res is Ok,
            res is Ok ==> exists|now: int|
                {
                    &&& 0 <= now <= i64::MAX
                    &&& final(self)@ == #[trigger] old(self)@.with_bpm(now, new_bpm as nat)
                    &&& old(self)@.tick() > 0 && beat_nanos(1, new_bpm as nat) > 0 ==> {
                        &&& final(self)@.beat(now) == old(self)@.beat(now)
                        &&& final(self)@.bar(now) == old(self)@.bar(now)
                    }
                },
            res is Err ==> *final(self) == *old(self),
            final(self).line() == old(self).line(),
    {
        let now = self.now();
        let res = self.set_bpm_when(now, new_bpm);
        assert(res is Ok ==> self@ == old(self)@.with_bpm(now.nanos as int, new_bpm as nat));
        res
    }

    /// Changes the meter to `new_bpb` at the current moment, which stays in
    /// its beat, and in its bar where the beat has a length.
    pub fn set_bpb(&mut self, new_bpb: u64) -> (res: Result<(), ClockError>)
        ensures
            new_bpb == 0 <==> res == Err::<(), ClockError>(ClockError::InvalidTempo),
            new_bpb > 0 && (forall|now: int|
                0 <= now <= i64::MAX ==> (#[trigger] old(self)@.with_bpb(
                    now,
                    new_bpb as nat,
                )).in_range()) ==> res is Ok,
            res is Ok ==> exists|now: int|
                {
                    &&& 0 <= now <= i64::MAX
                    &&& final(self)@ == #[trigger] old(self)@.with_bpb(now, new_bpb as nat)
                    &&& final(self)@.beat(now) == old(self)@.beat(now)
                    &&& old(self)@.tick() > 0 ==> final(self)@.bar(now) == old(self)@.bar(now)
                },
            res is Err ==> *final(self) == *old(self),
            final(self).line() == old(self).line(),
    {
        let now = self.now();
        let res = self.set_bpb_when(now, new_bpb);
        assert(res is Ok ==> self@ == old(self)@.with_bpb(now.nanos as int, new_bpb as nat));
        res
    }
}

} // verus!
