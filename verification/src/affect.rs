//! The pure affect computations: decay-weighted aggregation of a record
//! history into an emotional state, and the fixed-weight psychological
//! blend of stimulus, relationship and global emotions.

use crate::emotion::EmotionPrediction;
use crate::fixed::{
    clamp_unit, clamp_unit_i128, decay_weight, decay_weight_spec, div_trunc,
    lemma_decay_weight_at_zero, lemma_decay_weight_range, tdiv, SCALE,
};
use crate::store::{filter_by_source, MemoryRecord};
use vstd::arithmetic::div_mod::{lemma_div_multiples_vanish, lemma_div_nonincreasing,
    lemma_div_pos_is_pos};
use vstd::prelude::*;

verus! {

/// Sum of the decay weights of all records of `rs` under `rate`.
pub open spec fn sum_weights(rs: Seq<MemoryRecord>, rate: int) -> int
    decreases rs.len(),
{
    if rs.len() == 0 {
        0
    } else {
        sum_weights(rs.drop_last(), rate) + decay_weight_spec(rate, rs.last().past_time as int)
    }
}

/// Sum of the decay-weighted valence deviations of `rs` from baseline `b`.
pub open spec fn sum_weighted_valence_dev(rs: Seq<MemoryRecord>, b: int, rate: int) -> int
    decreases rs.len(),
{
    if rs.len() == 0 {
        0
    } else {
        sum_weighted_valence_dev(rs.drop_last(), b, rate) + decay_weight_spec(
            rate,
            rs.last().past_time as int,
        ) * (rs.last().valence - b)
    }
}

/// Sum of the decay-weighted arousal deviations of `rs` from baseline `b`.
pub open spec fn sum_weighted_arousal_dev(rs: Seq<MemoryRecord>, b: int, rate: int) -> int
    decreases rs.len(),
{
    if rs.len() == 0 {
        0
    } else {
        sum_weighted_arousal_dev(rs.drop_last(), b, rate) + decay_weight_spec(
            rate,
            rs.last().past_time as int,
        ) * (rs.last().arousal - b)
    }
}

/// The homeostatic decay average on the valence component: the weighted
/// mean deviation pulled back onto the baseline and clamped, or the
/// baseline itself when no record carries weight.
pub open spec fn aggregate_valence_spec(rs: Seq<MemoryRecord>, b: int, rate: int) -> int {
    let sw = sum_weights(rs, rate);
    if sw <= 0 {
        b
    } else {
        clamp_unit(tdiv(sum_weighted_valence_dev(rs, b, rate), sw) + b)
    }
}

/// The homeostatic decay average on the arousal component.
pub open spec fn aggregate_arousal_spec(rs: Seq<MemoryRecord>, b: int, rate: int) -> int {
    let sw = sum_weights(rs, rate);
    if sw <= 0 {
        b
    } else {
        clamp_unit(tdiv(sum_weighted_arousal_dev(rs, b, rate), sw) + b)
    }
}

/// The blend used when a relationship aggregate is present:
/// `0.50 * relationship + 0.35 * stimulus + 0.15 * global`, clamped.
pub open spec fn combine_with_relationship(rel: int, stim: int, glob: int) -> int {
    clamp_unit(tdiv(50 * rel + 35 * stim + 15 * glob, 100))
}

/// The blend used without a relationship aggregate:
/// `0.70 * stimulus + 0.30 * global`, clamped.
pub open spec fn combine_without_relationship(stim: int, glob: int) -> int {
    clamp_unit(tdiv(70 * stim + 30 * glob, 100))
}

/// The magnitude of a truncating quotient never exceeds the dividend's.
proof fn lemma_tdiv_magnitude(a: int, d: int)
    requires
        d > 0,
    ensures
        a >= 0 ==> 0 <= tdiv(a, d) <= a,
        a < 0 ==> a <= tdiv(a, d) <= 0,
{
    if a >= 0 {
        lemma_div_pos_is_pos(a, d);
        lemma_div_nonincreasing(a, d);
    } else {
        lemma_div_pos_is_pos(-a, d);
        lemma_div_nonincreasing(-a, d);
    }
}

/// Compute the decay-weighted aggregate of a record history over a
/// personality baseline: the executable form of
/// [`aggregate_valence_spec`] and [`aggregate_arousal_spec`].
///
/// With an empty history the result is exactly the baseline.
pub fn aggregate_emotion(
    records: &Vec<MemoryRecord>,
    baseline_valence: i64,
    baseline_arousal: i64,
    decay_rate: u64,
) -> (r: EmotionPrediction)
    requires
        forall|i: int| 0 <= i < records@.len() ==> (#[trigger] records@[i]).valid(),
        -SCALE <= baseline_valence <= SCALE,
        -SCALE <= baseline_arousal <= SCALE,
    ensures
        r.valence == aggregate_valence_spec(records@, baseline_valence as int, decay_rate as int),
        r.arousal == aggregate_arousal_spec(records@, baseline_arousal as int, decay_rate as int),
        r.valid(),
        records@.len() == 0 ==> r.valence == baseline_valence && r.arousal == baseline_arousal,
{
    let ghost rate = decay_rate as int;
    let ghost bv = baseline_valence as int;
    let ghost ba = baseline_arousal as int;
    let mut sum_w: u128 = 0;
    let mut wv: i128 = 0;
    let mut wa: i128 = 0;
    let mut i: usize = 0;
    while i < records.len()
        invariant
            i <= records@.len(),
            rate == decay_rate as int,
            bv == baseline_valence as int,
            ba == baseline_arousal as int,
            forall|j: int| 0 <= j < records@.len() ==> (#[trigger] records@[j]).valid(),
            -SCALE <= baseline_valence <= SCALE,
            -SCALE <= baseline_arousal <= SCALE,
            sum_w == sum_weights(records@.take(i as int), rate),
            sum_w <= i * (SCALE as int),
            wv == sum_weighted_valence_dev(records@.take(i as int), bv, rate),
            wa == sum_weighted_arousal_dev(records@.take(i as int), ba, rate),
            -(i * 2_000_000_000_000int) <= wv <= i * 2_000_000_000_000int,
            -(i * 2_000_000_000_000int) <= wa <= i * 2_000_000_000_000int,
        decreases records@.len() - i,
    {
        let rec = &records[i];
        let w = decay_weight(decay_rate, rec.past_time);
        let dv = rec.valence - baseline_valence;
        let da = rec.arousal - baseline_arousal;
        proof {
            assert(records@.take(i + 1).drop_last() =~= records@.take(i as int));
            assert(records@.take(i + 1).last() == records@[i as int]);
            lemma_decay_weight_range(rate, rec.past_time as int);
            assert((w as int) * (dv as int) <= 2_000_000_000_000
                && (w as int) * (dv as int) >= -2_000_000_000_000) by (nonlinear_arith)
                requires 0 <= w <= 1_000_000, -2_000_000 <= dv <= 2_000_000;
            assert((w as int) * (da as int) <= 2_000_000_000_000
                && (w as int) * (da as int) >= -2_000_000_000_000) by (nonlinear_arith)
                requires 0 <= w <= 1_000_000, -2_000_000 <= da <= 2_000_000;
        }
        sum_w = sum_w + (w as u128);
        wv = wv + (w as i128) * (dv as i128);
        wa = wa + (w as i128) * (da as i128);
        i = i + 1;
    }
    proof {
        assert(records@.take(records@.len() as int) =~= records@);
    }
    if sum_w > 0 {
        proof {
            lemma_tdiv_magnitude(wv as int, sum_w as int);
            lemma_tdiv_magnitude(wa as int, sum_w as int);
        }
        let qv = div_trunc(wv, sum_w);
        let qa = div_trunc(wa, sum_w);
        let valence = clamp_unit_i128(qv + (baseline_valence as i128));
        let arousal = clamp_unit_i128(qa + (baseline_arousal as i128));
        EmotionPrediction { valence, arousal }
    } else {
        EmotionPrediction { valence: baseline_valence, arousal: baseline_arousal }
    }
}

/// Blend a fresh stimulus with the relationship-specific and global
/// aggregates using the fixed psychological weights, clamping the result.
///
/// The blend is total: it accepts any stimulus and pins the clamped
/// result exactly, so whatever the inputs, the returned sample is valid.
pub fn combine_emotions(
    stimulus: &EmotionPrediction,
    relationship: Option<EmotionPrediction>,
    global: &EmotionPrediction,
) -> (r: EmotionPrediction)
    ensures
        match relationship {
            Some(rel) => r.valence == combine_with_relationship(
                rel.valence as int,
                stimulus.valence as int,
                global.valence as int,
            ) && r.arousal == combine_with_relationship(
                rel.arousal as int,
                stimulus.arousal as int,
                global.arousal as int,
            ),
            None => r.valence == combine_without_relationship(
                stimulus.valence as int,
                global.valence as int,
            ) && r.arousal == combine_without_relationship(
                stimulus.arousal as int,
                global.arousal as int,
            ),
        },
        r.valid(),
{
    match relationship {
        Some(rel) => {
            let v = 50 * (rel.valence as i128) + 35 * (stimulus.valence as i128) + 15 * (
            global.valence as i128);
            let a = 50 * (rel.arousal as i128) + 35 * (stimulus.arousal as i128) + 15 * (
            global.arousal as i128);
            let valence = clamp_unit_i128(div_trunc(v, 100));
            let arousal = clamp_unit_i128(div_trunc(a, 100));
            EmotionPrediction { valence, arousal }
        },
        None => {
            let v = 70 * (stimulus.valence as i128) + 30 * (global.valence as i128);
            let a = 70 * (stimulus.arousal as i128) + 30 * (global.arousal as i128);
            let valence = clamp_unit_i128(div_trunc(v, 100));
            let arousal = clamp_unit_i128(div_trunc(a, 100));
            EmotionPrediction { valence, arousal }
        },
    }
}

/// An entity with no history sits exactly at its personality baseline.
pub proof fn lemma_empty_history_is_baseline(b: int, rate: int)
    ensures
        aggregate_valence_spec(Seq::empty(), b, rate) == b,
        aggregate_arousal_spec(Seq::empty(), b, rate) == b,
{
}

/// A single record written at recency zero carries weight one, so the
/// weighted average reduces to that record's own components, unmodified.
pub proof fn lemma_single_fresh_record(r: MemoryRecord, bv: int, ba: int, rate: int)
    requires
        rate >= 0,
        r.valid(),
        r.past_time == 0,
        -SCALE <= bv <= SCALE,
        -SCALE <= ba <= SCALE,
    ensures
        aggregate_valence_spec(seq![r], bv, rate) == r.valence,
        aggregate_arousal_spec(seq![r], ba, rate) == r.arousal,
{
    let rs = seq![r];
    assert(rs.drop_last() =~= Seq::<MemoryRecord>::empty());
    assert(rs.last() == r);
    lemma_decay_weight_at_zero(rate);
    assert(decay_weight_spec(rate, 0) == SCALE);
    assert(sum_weights(Seq::<MemoryRecord>::empty(), rate) == 0);
    assert(sum_weighted_valence_dev(Seq::<MemoryRecord>::empty(), bv, rate) == 0);
    assert(sum_weighted_arousal_dev(Seq::<MemoryRecord>::empty(), ba, rate) == 0);
    assert(sum_weights(rs, rate) == SCALE);
    assert(sum_weighted_valence_dev(rs, bv, rate) == (SCALE as int) * (r.valence - bv));
    assert(sum_weighted_arousal_dev(rs, ba, rate) == (SCALE as int) * (r.arousal - ba));
    lemma_mult_div_exact(r.valence - bv);
    lemma_mult_div_exact(r.arousal - ba);
}

/// `tdiv(SCALE * m, SCALE) == m`: dividing an exact multiple back out.
proof fn lemma_mult_div_exact(m: int)
    ensures
        tdiv((SCALE as int) * m, SCALE as int) == m,
{
    if m >= 0 {
        lemma_div_multiples_vanish(m, SCALE as int);
        assert((SCALE as int) * m >= 0) by (nonlinear_arith)
            requires m >= 0, SCALE > 0;
    } else {
        lemma_div_multiples_vanish(-m, SCALE as int);
        assert(-((SCALE as int) * m) == (SCALE as int) * (-m)) by (nonlinear_arith);
        assert((SCALE as int) * m < 0) by (nonlinear_arith)
            requires m < 0, SCALE > 0;
    }
}

/// Records attributed to other sources never influence a source-filtered
/// aggregate: appending such a record leaves the filtered history — and
/// with it every aggregate computed from it — unchanged.
pub proof fn lemma_other_source_does_not_influence(
    rs: Seq<MemoryRecord>,
    extra: MemoryRecord,
    src: Seq<char>,
)
    requires
        extra.source_id@ != src,
    ensures
        filter_by_source(rs.push(extra), src) == filter_by_source(rs, src),
{
    assert(rs.push(extra).drop_last() =~= rs);
    assert(rs.push(extra).last() == extra);
}

} // verus!
