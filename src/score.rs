//! The efficiency scorer.
//!
//! A layer's score is `base × time_factor × quality_factor`, clamped to
//! `[SCORE_FLOOR, SCORE_SCALE]`. Every factor is a fixed-point number in
//! ten-thousandths, and every product is divided back by `SCORE_SCALE`
//! (rounding down) as soon as it is formed.

use vstd::prelude::*;
use vstd::arithmetic::div_mod::{lemma_div_is_ordered, lemma_div_pos_is_pos, lemma_div_by_multiple};
use vstd::arithmetic::mul::{lemma_mul_inequality, lemma_mul_upper_bound};

verus! {

/// The fixed-point value of 1.0.
pub const SCORE_SCALE: u32 = 10_000;

/// The lowest score a layer can get (0.3).
pub const SCORE_FLOOR: u32 = 3_000;

/// The largest share of a score that elapsed time can take away (0.5).
pub const TIME_PENALTY_CAP: u32 = 5_000;

/// The largest share of the transport score that round-trip time can take
/// away (0.3).
pub const RTT_PENALTY_CAP: u32 = 3_000;

/// `raw` brought into `[floor, SCORE_SCALE]`.
pub open spec fn clamp_score(raw: int, floor: int) -> int {
    if raw < floor {
        floor
    } else if raw > SCORE_SCALE {
        SCORE_SCALE as int
    } else {
        raw
    }
}

/// `1 − min(elapsed / scale, cap)`, in ten-thousandths.
pub open spec fn time_factor_spec(elapsed_us: int, scale_us: int, cap: int) -> int {
    let share = elapsed_us * SCORE_SCALE / scale_us;
    SCORE_SCALE - (if share < cap { share } else { cap })
}

/// `base × time_factor × quality`, clamped to `[SCORE_FLOOR, SCORE_SCALE]`.
pub open spec fn layer_score_spec(base: int, time_factor: int, quality: int) -> int {
    clamp_score(base * time_factor / SCORE_SCALE as int * quality / SCORE_SCALE as int, SCORE_FLOOR as int)
}

/// The round-trip-time penalty: `min(rtt / 100 ms, 0.3)`, in ten-thousandths.
pub open spec fn rtt_penalty(rtt_us: int) -> int {
    if rtt_us / 10 < RTT_PENALTY_CAP { rtt_us / 10 } else { RTT_PENALTY_CAP as int }
}

/// The packet-loss penalty: `min(50 × loss_rate, 1.0)`, in ten-thousandths,
/// for a loss rate given in parts per million.
pub open spec fn loss_penalty(loss_ppm: int) -> int {
    if loss_ppm / 2 < SCORE_SCALE { loss_ppm / 2 } else { SCORE_SCALE as int }
}

/// The transport quality factor: `(1 − rtt_penalty) × (1 − loss_penalty)`.
pub open spec fn transport_quality_spec(rtt_us: int, loss_ppm: int) -> int {
    (SCORE_SCALE - rtt_penalty(rtt_us)) * (SCORE_SCALE - loss_penalty(loss_ppm)) / SCORE_SCALE as int
}

/// The time factor of a layer whose step took `elapsed_us`, against a time
/// scale of `scale_us` and a penalty cap of `cap`.
pub fn time_factor(elapsed_us: u128, scale_us: u64, cap: u32) -> (r: u32)
    requires
        scale_us > 0,
        cap <= SCORE_SCALE,
    ensures
        r == time_factor_spec(elapsed_us as int, scale_us as int, cap as int),
        SCORE_SCALE - cap <= r <= SCORE_SCALE,
{
    proof {
        lemma_div_pos_is_pos(elapsed_us as int * SCORE_SCALE as int, scale_us as int);
    }
    if elapsed_us >= scale_us as u128 {
        proof {
            lemma_mul_inequality(scale_us as int, elapsed_us as int, SCORE_SCALE as int);
            lemma_div_is_ordered(scale_us as int * SCORE_SCALE as int, elapsed_us as int * SCORE_SCALE as int, scale_us as int);
            assert(scale_us as int * SCORE_SCALE as int == SCORE_SCALE as int * scale_us as int) by (nonlinear_arith);
            lemma_div_by_multiple(SCORE_SCALE as int, scale_us as int);
        }
        return SCORE_SCALE - cap;
    }
    proof {
        lemma_mul_inequality(elapsed_us as int, u64::MAX as int, SCORE_SCALE as int);
    }
    let share: u128 = elapsed_us * (SCORE_SCALE as u128) / (scale_us as u128);
    if share < cap as u128 {
        SCORE_SCALE - share as u32
    } else {
        SCORE_SCALE - cap
    }
}

/// The score of a layer: `base × time_factor × quality`, clamped to
/// `[SCORE_FLOOR, SCORE_SCALE]`.
pub fn layer_score(base: u32, time_factor: u32, quality: u32) -> (r: u32)
    ensures
        r == layer_score_spec(base as int, time_factor as int, quality as int),
        SCORE_FLOOR <= r <= SCORE_SCALE,
{
    let b = base as u128;
    let t = time_factor as u128;
    let q = quality as u128;
    proof {
        lemma_mul_upper_bound(b as int, u32::MAX as int, t as int, u32::MAX as int);
        lemma_div_is_ordered(b as int * t as int, u32::MAX as int * u32::MAX as int, SCORE_SCALE as int);
    }
    let bt = b * t / (SCORE_SCALE as u128);
    proof {
        assert(u32::MAX as int * u32::MAX as int / SCORE_SCALE as int <= u64::MAX) by (nonlinear_arith);
        lemma_mul_upper_bound(bt as int, u64::MAX as int, q as int, u32::MAX as int);
        assert(u64::MAX as int * u32::MAX as int <= u128::MAX) by (nonlinear_arith);
    }
    let raw = bt * q / (SCORE_SCALE as u128);
    if raw < SCORE_FLOOR as u128 {
        SCORE_FLOOR
    } else if raw > SCORE_SCALE as u128 {
        SCORE_SCALE
    } else {
        raw as u32
    }
}

/// The quality factor of the transport layer for a round-trip time of
/// `rtt_us` and a loss rate of `loss_ppm` parts per million.
pub fn transport_quality(rtt_us: u64, loss_ppm: u32) -> (r: u32)
    ensures
        r == transport_quality_spec(rtt_us as int, loss_ppm as int),
        r <= SCORE_SCALE,
{
    let rtt_pen: u32 = if rtt_us / 10 < RTT_PENALTY_CAP as u64 { (rtt_us / 10) as u32 } else { RTT_PENALTY_CAP };
    let loss_pen: u32 = if loss_ppm / 2 < SCORE_SCALE { loss_ppm / 2 } else { SCORE_SCALE };
    let a: u64 = (SCORE_SCALE - rtt_pen) as u64;
    let b: u64 = (SCORE_SCALE - loss_pen) as u64;
    proof {
        lemma_mul_upper_bound(a as int, SCORE_SCALE as int, b as int, SCORE_SCALE as int);
        lemma_div_is_ordered(a as int * b as int, SCORE_SCALE as int * SCORE_SCALE as int, SCORE_SCALE as int);
    }
    (a * b / (SCORE_SCALE as u64)) as u32
}

/// A layer score never grows when its quality factor shrinks: for
/// `q1 <= q2`, the score with `q1` is at most the score with `q2`.
pub proof fn lemma_layer_score_monotone_in_quality(base: int, time_factor: int, q1: int, q2: int)
    requires
        0 <= base,
        0 <= time_factor,
        0 <= q1 <= q2,
    ensures
        layer_score_spec(base, time_factor, q1) <= layer_score_spec(base, time_factor, q2),
{
    let bt = base * time_factor / SCORE_SCALE as int;
    assert(0 <= base * time_factor) by (nonlinear_arith)
        requires 0 <= base, 0 <= time_factor;
    lemma_div_pos_is_pos(base * time_factor, SCORE_SCALE as int);
    lemma_mul_inequality(q1, q2, bt);
    assert(bt * q1 == q1 * bt && bt * q2 == q2 * bt) by (nonlinear_arith);
    lemma_div_is_ordered(bt * q1, bt * q2, SCORE_SCALE as int);
}

/// The transport quality factor never grows when round-trip time or packet
/// loss grows.
pub proof fn lemma_transport_quality_antitone(rtt1: int, loss1: int, rtt2: int, loss2: int)
    requires
        0 <= rtt1 <= rtt2,
        0 <= loss1 <= loss2,
    ensures
        transport_quality_spec(rtt2, loss2) <= transport_quality_spec(rtt1, loss1),
        0 <= transport_quality_spec(rtt2, loss2),
{
    lemma_div_is_ordered(rtt1, rtt2, 10);
    lemma_div_is_ordered(loss1, loss2, 2);
    let a1 = SCORE_SCALE - rtt_penalty(rtt1);
    let a2 = SCORE_SCALE - rtt_penalty(rtt2);
    let b1 = SCORE_SCALE - loss_penalty(loss1);
    let b2 = SCORE_SCALE - loss_penalty(loss2);
    lemma_div_pos_is_pos(rtt1, 10);
    lemma_div_pos_is_pos(loss1, 2);
    assert(0 <= a2 <= a1 && 0 <= b2 <= b1);
    assert(a2 * b2 <= a1 * b1) by (nonlinear_arith)
        requires 0 <= a2 <= a1, 0 <= b2 <= b1;
    assert(0 <= a2 * b2) by (nonlinear_arith)
        requires 0 <= a2, 0 <= b2;
    lemma_div_is_ordered(a2 * b2, a1 * b1, SCORE_SCALE as int);
    lemma_div_pos_is_pos(a2 * b2, SCORE_SCALE as int);
}

} // verus!
