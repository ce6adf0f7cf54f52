//! What a change of tempo or meter keeps: the index of the current beat and
//! of the current bar.

use crate::clock::{
    beat_nanos, keeps_index, period_index, reanchored, retuned_anchor, ClockView,
};
use crate::time::elapsed_between;
use vstd::arithmetic::div_mod::*;
use vstd::arithmetic::mul::*;
use vstd::prelude::*;

verus! {

/// The index that `now` has after the anchor was moved by `reanchored` for a
/// new period.
pub open spec fn index_after(anchor: int, old_period: nat, new_period: nat, now: int) -> nat {
    period_index(
        reanchored(anchor, period_index(anchor, old_period, now), old_period, new_period),
        new_period,
        now,
    )
}

/// Re-anchoring keeps the index of the current period exactly where
/// `keeps_index` says.
pub proof fn lemma_reanchoring_keeps_index(anchor: int, old_period: nat, new_period: nat, now: int)
    ensures
        index_after(anchor, old_period, new_period, now) == period_index(anchor, old_period, now)
            <==> keeps_index(anchor, old_period, new_period, now),
{
    let elapsed = elapsed_between(anchor, now);
    let index = period_index(anchor, old_period, now);
    let moved = reanchored(anchor, index, old_period, new_period);
    let after = elapsed_between(moved, now);
    let t = old_period as int;
    let u = new_period as int;
    if old_period > 0 && new_period > 0 {
        let q = elapsed as int / t;
        let r = elapsed as int % t;
        lemma_fundamental_div_mod(elapsed as int, t);
        lemma_mod_pos_bound(elapsed as int, t);
        lemma_div_pos_is_pos(elapsed as int, t);
        assert(index == q + 1);
        assert((q + 1) * t == t * q + t) by (nonlinear_arith);
        assert((q + 1) * u == q * u + u) by (nonlinear_arith);
        let left = t - r;
        if now > anchor {
            assert(now - moved == q * u + u - left);
            if left <= u {
                assert(after == q * u + (u - left));
                lemma_fundamental_div_mod_converse(after as int, u, q, u - left);
            } else if q == 0 {
                assert(after == 0);
                lemma_basic_div(0, u);
            } else {
                if now - moved <= 0 {
                    lemma_basic_div(0, u);
                } else {
                    assert(after < u * q) by (nonlinear_arith)
                        requires
                            after == q * u + u - left,
                            left > u,
                    ;
                    lemma_multiply_divide_lt(after as int, u, q);
                }
            }
        } else {
            assert(elapsed == 0);
            lemma_basic_div(0, t);
            assert(q == 0);
            assert(now - moved < u);
            assert(after < u);
            lemma_basic_div(after as int, u);
        }
    } else if old_period > 0 {
        let q = elapsed as int / t;
        let r = elapsed as int % t;
        lemma_fundamental_div_mod(elapsed as int, t);
        lemma_mod_pos_bound(elapsed as int, t);
        lemma_div_pos_is_pos(elapsed as int, t);
        assert((q + 1) * t == t * q + t) by (nonlinear_arith);
        assert(index * new_period == 0) by (nonlinear_arith)
            requires
                new_period == 0,
        ;
        assert(now - moved < 0);
        assert(after == 0);
    } else if new_period > 0 {
        assert(index * old_period == 0) by (nonlinear_arith)
            requires
                old_period == 0,
        ;
        if elapsed == 0 {
            assert(index == 0);
            assert(index * new_period == 0) by (nonlinear_arith)
                requires
                    index == 0,
            ;
            assert(moved == anchor);
            lemma_basic_div(0, u);
        } else {
            let m = u64::MAX as int;
            assert(index == m);
            assert(after == elapsed + m * u);
            lemma_mul_nonnegative(m, u);
            lemma_div_is_ordered(m * u, after as int, u);
            lemma_div_by_multiple(m, u);
        }
    } else {
        assert(index * old_period == 0) by (nonlinear_arith)
            requires
                old_period == 0,
        ;
        assert(index * new_period == 0) by (nonlinear_arith)
            requires
                new_period == 0,
        ;
        assert(moved == anchor);
    }
}

/// The index that `now` has after a change of period.
pub open spec fn index_after_retuning(
    anchor: int,
    old_period: nat,
    new_period: nat,
    now: int,
) -> nat {
    period_index(retuned_anchor(anchor, old_period, new_period, now), new_period, now)
}

/// A change of period keeps the index of the current period wherever both
/// periods have a length, and wherever neither has. Where just one of them
/// has none, it does not.
pub proof fn lemma_retuning_keeps_index(anchor: int, old_period: nat, new_period: nat, now: int)
    ensures
        index_after_retuning(anchor, old_period, new_period, now) == period_index(
            anchor,
            old_period,
            now,
        ) <==> (old_period > 0 <==> new_period > 0),
{
    lemma_reanchoring_keeps_index(anchor, old_period, new_period, now);
    if old_period > 0 && new_period > 0 && !keeps_index(anchor, old_period, new_period, now) {
        let elapsed = elapsed_between(anchor, now);
        let index = period_index(anchor, old_period, now);
        let before = index - 1;
        let u = new_period as int;
        lemma_div_pos_is_pos(elapsed as int, old_period as int);
        assert(before >= 1);
        assert(before * u >= u) by (nonlinear_arith)
            requires
                before >= 1,
                u > 0,
        ;
        let moved = retuned_anchor(anchor, old_period, new_period, now);
        assert(moved == now - before * u);
        assert(elapsed_between(moved, now) == before * u);
        lemma_div_by_multiple(before, u);
    }
}

/// A change of tempo to `bpm` at `now` leaves `now` in the beat it lay in,
/// between tempos whose beat has a length.
pub proof fn law_tempo_change_keeps_beat(clock: ClockView, now: int, bpm: nat)
    requires
        clock.bpm > 0,
        clock.bpb > 0,
        bpm > 0,
        clock.tick() > 0,
        beat_nanos(1, bpm) > 0,
    ensures
        clock.with_bpm(now, bpm).beat(now) == clock.beat(now),
{
    lemma_retuning_keeps_index(clock.start, clock.tick(), beat_nanos(1, bpm), now);
}

/// A change of tempo to `bpm` at `now` leaves `now` in the bar it lay in,
/// between tempos whose beat has a length.
pub proof fn law_tempo_change_keeps_bar(clock: ClockView, now: int, bpm: nat)
    requires
        clock.bpm > 0,
        clock.bpb > 0,
        bpm > 0,
        clock.tick() > 0,
        beat_nanos(1, bpm) > 0,
    ensures
        clock.with_bpm(now, bpm).bar(now) == clock.bar(now),
{
    lemma_bar_has_a_length(clock.bpb, clock.tick());
    lemma_bar_has_a_length(clock.bpb, beat_nanos(1, bpm));
    lemma_retuning_keeps_index(clock.bar_start, clock.tock(), beat_nanos(clock.bpb, bpm), now);
}

/// A change of meter to `bpb` at `now` leaves `now` in the bar it lay in,
/// at a tempo whose beat has a length.
pub proof fn law_meter_change_keeps_bar(clock: ClockView, now: int, bpb: nat)
    requires
        clock.bpm > 0,
        clock.bpb > 0,
        bpb > 0,
        clock.tick() > 0,
    ensures
        clock.with_bpb(now, bpb).bar(now) == clock.bar(now),
{
    lemma_bar_has_a_length(clock.bpb, clock.tick());
    lemma_bar_has_a_length(bpb, clock.tick());
    lemma_retuning_keeps_index(clock.bar_start, clock.tock(), beat_nanos(bpb, clock.bpm), now);
}

/// A change of meter moves no beat: every moment lies in the beat it lay in,
/// and every beat has the moment it had.
pub proof fn law_meter_change_keeps_beats(clock: ClockView, now: int, bpb: nat, at: int, beat: nat)
    ensures
        clock.with_bpb(now, bpb).beat(at) == clock.beat(at),
        clock.with_bpb(now, bpb).beat_at(beat) == clock.beat_at(beat),
{
}

/// A change between two tempos of which just one has a beat without length
/// loses the index of the current beat: there is none to keep on one side.
pub proof fn law_beat_without_length_keeps_nothing(clock: ClockView, now: int, bpm: nat)
    requires
        clock.bpm > 0,
        clock.bpb > 0,
        bpm > 0,
        (clock.tick() > 0) != (beat_nanos(1, bpm) > 0),
    ensures
        clock.with_bpm(now, bpm).beat(now) != clock.beat(now),
{
    lemma_retuning_keeps_index(clock.start, clock.tick(), beat_nanos(1, bpm), now);
}

/// A bar of beats that have a length has a length.
proof fn lemma_bar_has_a_length(beats: nat, tick: nat)
    requires
        beats > 0,
        tick > 0,
    ensures
        beats * tick > 0,
{
    assert(beats * tick > 0) by (nonlinear_arith)
        requires
            beats > 0,
            tick > 0,
    ;
}

} // verus!
