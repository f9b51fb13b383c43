//! Centred moving-average projection of a series into chart points.

use vstd::prelude::*;
use vstd::arithmetic::div_mod::{lemma_div_is_ordered, lemma_div_multiples_vanish};

verus! {

/// Sum of the samples.
pub open spec fn sum_of(s: Seq<u64>) -> int
    decreases s.len(),
{
    if s.len() == 0 {
        0
    } else {
        sum_of(s.drop_last()) + s.last()
    }
}

/// Arithmetic mean of the samples, rounded down; zero for no samples.
pub open spec fn mean_of(s: Seq<u64>) -> int {
    if s.len() == 0 {
        0
    } else {
        sum_of(s) / (s.len() as int)
    }
}

/// How many neighbours on each side of a sample its average takes in.
pub open spec fn radius(window_size: nat) -> nat {
    window_size / 2
}

/// How many points a series of `len` samples is reduced to: the samples within
/// the radius of either end get no point of their own.
pub open spec fn point_count(len: nat, window_size: nat) -> nat {
    if len > 2 * radius(window_size) {
        (len - 2 * radius(window_size)) as nat
    } else {
        0
    }
}

/// The smoothed series: point `k` has x coordinate `k` and, as y, the mean of
/// the `2 * radius + 1` samples centred on sample `k + radius`.
pub open spec fn smoothed(s: Seq<u64>, window_size: nat) -> Seq<(u64, u64)> {
    Seq::new(
        point_count(s.len(), window_size),
        |k: int| (k as u64, mean_of(s.subrange(k, k + 2 * radius(window_size) + 1)) as u64),
    )
}

proof fn lemma_sum_bounds(s: Seq<u64>)
    ensures
        0 <= sum_of(s) <= s.len() * 0xFFFF_FFFF_FFFF_FFFFint,
    decreases s.len(),
{
    if s.len() > 0 {
        lemma_sum_bounds(s.drop_last());
    }
}

proof fn lemma_sum_extend(s: Seq<u64>, lo: int, hi: int)
    requires
        0 <= lo <= hi < s.len(),
    ensures
        sum_of(s.subrange(lo, hi + 1)) == sum_of(s.subrange(lo, hi)) + s[hi],
{
    assert(s.subrange(lo, hi + 1).drop_last() =~= s.subrange(lo, hi));
}

proof fn lemma_sum_constant(s: Seq<u64>, v: u64)
    requires
        forall|i: int| 0 <= i < s.len() ==> s[i] == v,
    ensures
        sum_of(s) == s.len() * v,
    decreases s.len(),
{
    if s.len() > 0 {
        lemma_sum_constant(s.drop_last(), v);
        let n = s.len() as int;
        assert((n - 1) * v + v == n * v) by (nonlinear_arith);
    }
}

/// The mean of a non-empty series fits the type of its samples.
proof fn lemma_mean_fits(s: Seq<u64>)
    ensures
        0 <= mean_of(s) <= 0xFFFF_FFFF_FFFF_FFFFint,
{
    if s.len() > 0 {
        let m = 0xFFFF_FFFF_FFFF_FFFFint;
        let n = s.len() as int;
        lemma_sum_bounds(s);
        lemma_div_is_ordered(sum_of(s), n * m, n);
        lemma_div_multiples_vanish(m, n);
        lemma_div_is_ordered(0, sum_of(s), n);
    }
}

/// A series of `L` samples smoothed with radius `r` gives exactly `L - 2r` points
/// when `L > 2r`, and none at all otherwise.
pub proof fn lemma_smoothing_shape(s: Seq<u64>, window_size: nat)
    ensures
        s.len() > 2 * radius(window_size) ==> smoothed(s, window_size).len() == s.len() - 2
            * radius(window_size),
        s.len() <= 2 * radius(window_size) ==> smoothed(s, window_size).len() == 0,
{
}

/// Smoothing a series whose samples all equal `v` gives points whose y is `v`.
pub proof fn lemma_constant_series_smooths_flat(s: Seq<u64>, window_size: nat, v: u64)
    requires
        forall|i: int| 0 <= i < s.len() ==> s[i] == v,
    ensures
        forall|k: int|
            0 <= k < smoothed(s, window_size).len() ==> #[trigger] smoothed(s, window_size)[k].1
                == v,
{
    let span = (2 * radius(window_size) + 1) as int;
    assert forall|k: int| 0 <= k < smoothed(s, window_size).len() implies #[trigger] smoothed(
        s,
        window_size,
    )[k].1 == v by {
        let sub = s.subrange(k, k + span);
        lemma_sum_constant(sub, v);
        lemma_div_multiples_vanish(v as int, span);
    }
}

/// Reduces `series` to chart points by a centred moving average over windows of
/// `2 * (window_size / 2) + 1` samples; x is the index of the point.
pub fn smooth_serie(series: &[u64], window_size: usize) -> (r: Vec<(u64, u64)>)
    ensures
        r@ == smoothed(series@, window_size as nat),
{
    let n = series.len();
    let half = window_size / 2;
    let mut out: Vec<(u64, u64)> = Vec::new();
    if n <= 2 * half {
        assert(out@ =~= smoothed(series@, window_size as nat));
        return out;
    }
    let span = 2 * half + 1;
    let count = n - 2 * half;
    let mut k: usize = 0;
    while k < count
        invariant
            n == series@.len(),
            half == radius(window_size as nat),
            span == 2 * half + 1,
            count == n - 2 * half,
            k <= count,
            out@ == smoothed(series@, window_size as nat).subrange(0, k as int),
        decreases count - k,
    {
        let end = k + span;
        let mut acc: u128 = 0;
        let mut j: usize = k;
        while j < end
            invariant
                n == series@.len(),
                end == k + span,
                end <= n,
                k <= j <= end,
                acc == sum_of(series@.subrange(k as int, j as int)),
            decreases end - j,
        {
            proof {
                lemma_sum_extend(series@, k as int, j as int);
                lemma_sum_bounds(series@.subrange(k as int, j + 1));
                let len = (j + 1 - k) as int;
                assert(len * 0xFFFF_FFFF_FFFF_FFFFint <= 0xFFFF_FFFF_FFFF_FFFF_FFFF_FFFF_FFFF_FFFFint)
                    by (nonlinear_arith)
                    requires
                        0 <= len <= 0xFFFF_FFFF_FFFF_FFFFint,
                ;
            }
            acc = acc + series[j] as u128;
            j = j + 1;
        }
        proof {
            lemma_mean_fits(series@.subrange(k as int, end as int));
        }
        let mean = acc / (span as u128);
        out.push((k as u64, mean as u64));
        proof {
            assert(out@ =~= smoothed(series@, window_size as nat).subrange(0, k + 1));
        }
        k = k + 1;
    }
    assert(out@ =~= smoothed(series@, window_size as nat));
    out
}

} // verus!
