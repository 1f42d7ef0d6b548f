//! Sample-rate conversion by linear interpolation.
//!
//! The converter lays its output on a grid: output sample `i` sits at source
//! position `i * source_rate / target_rate`. That position is a fraction; its
//! whole part names the source sample to the left, and the remainder over
//! `target_rate` says how far towards the next source sample the output lies.
//! All of this is integer arithmetic and is what this module computes and
//! proves. Blending the two neighbours is the caller's arithmetic: it is
//! handed in as `lerp`, and the contract says which neighbours and which
//! fraction each output sample was blended from.
//!
//! There is no filtering before or after the interpolation. Converting to a
//! lower rate can therefore alias; this keeps the converter small and is the
//! accepted trade-off.

use vstd::prelude::*;

verus! {

/// Number of output samples for `len` input samples:
/// `floor(len * target_rate / source_rate)`.
pub open spec fn resampled_len(len: nat, source_rate: nat, target_rate: nat) -> nat
    recommends
        source_rate > 0,
{
    (len * target_rate) / source_rate
}

/// Index of the source sample at or to the left of output sample `i`.
pub open spec fn left_index(i: nat, source_rate: nat, target_rate: nat) -> nat
    recommends
        target_rate > 0,
{
    (i * source_rate) / target_rate
}

/// Index of the source sample to the right of output sample `i`, held at the
/// last sample where the input ends.
pub open spec fn right_index(i: nat, len: nat, source_rate: nat, target_rate: nat) -> nat
    recommends
        target_rate > 0,
        len > 0,
{
    let next = left_index(i, source_rate, target_rate) + 1;
    if next < len {
        next
    } else {
        (len - 1) as nat
    }
}

/// Distance of output sample `i` from its left neighbour, as a count of
/// `target_rate`-ths of one source step.
pub open spec fn fraction(i: nat, source_rate: nat, target_rate: nat) -> nat
    recommends
        target_rate > 0,
{
    (i * source_rate) % target_rate
}

/// Whether a conversion is a copy: equal rates, or nothing to convert.
pub open spec fn is_passthrough(len: nat, source_rate: nat, target_rate: nat) -> bool {
    source_rate == target_rate || len == 0
}

/// Whether the conversion of `len` samples is defined on this machine: a
/// copy always is; an interpolation needs a source rate above zero and an
/// output length that a vector can have.
pub open spec fn resample_defined(len: nat, source_rate: nat, target_rate: nat) -> bool {
    is_passthrough(len, source_rate, target_rate) || (source_rate > 0 && resampled_len(
        len,
        source_rate,
        target_rate,
    ) <= usize::MAX)
}

/// `out` is `input` converted from `source_rate` to `target_rate` with `lerp`
/// as the blend: a copy where the conversion is a passthrough, else the
/// interpolation grid with every output sample a result of `lerp` on its two
/// neighbours and its fraction.
pub open spec fn is_resampling<T, F: Fn(T, T, u32, u32) -> T>(
    lerp: F,
    input: Seq<T>,
    source_rate: u32,
    target_rate: u32,
    out: Seq<T>,
) -> bool {
    if is_passthrough(input.len(), source_rate as nat, target_rate as nat) {
        out == input
    } else {
        &&& out.len() == resampled_len(input.len(), source_rate as nat, target_rate as nat)
        &&& forall|i: int|
            0 <= i < out.len() ==> call_ensures(
                lerp,
                (
                    input[left_index(i as nat, source_rate as nat, target_rate as nat) as int],
                    input[right_index(
                        i as nat,
                        input.len(),
                        source_rate as nat,
                        target_rate as nat,
                    ) as int],
                    fraction(i as nat, source_rate as nat, target_rate as nat) as u32,
                    target_rate,
                ),
                #[trigger] out[i],
            )
    }
}

/// Whether `lerp` may be called on every pair of samples with every proper
/// fraction `numerator / denominator`.
pub open spec fn blend_is_total<T, F: Fn(T, T, u32, u32) -> T>(lerp: F) -> bool {
    forall|a: T, b: T, numerator: u32, denominator: u32|
        numerator < denominator ==> call_requires(lerp, (a, b, numerator, denominator))
}

/// Every output position of the grid lies inside the input.
pub proof fn lemma_grid_in_bounds(i: nat, len: nat, source_rate: nat, target_rate: nat)
    requires
        source_rate > 0,
        i < resampled_len(len, source_rate, target_rate),
    ensures
        target_rate > 0,
        len > 0,
        i * source_rate < len * target_rate,
        left_index(i, source_rate, target_rate) < len,
        right_index(i, len, source_rate, target_rate) < len,
        fraction(i, source_rate, target_rate) < target_rate,
{
    let n = resampled_len(len, source_rate, target_rate);
    let total = len * target_rate;
    assert(len > 0 && target_rate > 0) by (nonlinear_arith)
        requires
            total == len * target_rate,
            total / source_rate > 0,
            source_rate > 0,
    ;
    assert(n * source_rate <= total) by (nonlinear_arith)
        requires
            n == total / source_rate,
            source_rate > 0,
            total >= 0,
    ;
    assert(i * source_rate < n * source_rate) by (nonlinear_arith)
        requires
            i < n,
            source_rate > 0,
    ;
    let at = i * source_rate;
    assert(at / target_rate < len) by (nonlinear_arith)
        requires
            at < len * target_rate,
            target_rate > 0,
            at >= 0,
    ;
    assert(at % target_rate < target_rate) by (nonlinear_arith)
        requires
            target_rate > 0,
    ;
}

/// Downward conversion never lengthens: with `target_rate <= source_rate`
/// the output is at most as long as the input, so the conversion of any
/// input that a vector can hold is defined.
pub proof fn lemma_downward_is_shorter(len: nat, source_rate: nat, target_rate: nat)
    requires
        0 < source_rate,
        target_rate <= source_rate,
    ensures
        resampled_len(len, source_rate, target_rate) <= len,
        len <= usize::MAX ==> resample_defined(len, source_rate, target_rate),
{
    let total = len * target_rate;
    assert(total <= len * source_rate) by (nonlinear_arith)
        requires
            total == len * target_rate,
            target_rate <= source_rate,
    ;
    assert(total / source_rate <= len) by (nonlinear_arith)
        requires
            total <= len * source_rate,
            source_rate > 0,
            total >= 0,
    ;
}

/// Decides whether `resample` is defined for `len` samples at these rates.
pub fn can_resample(len: usize, source_rate: u32, target_rate: u32) -> (ok: bool)
    ensures
        ok == resample_defined(len as nat, source_rate as nat, target_rate as nat),
{
    if source_rate == target_rate || len == 0 {
        return true;
    }
    if source_rate == 0 {
        return false;
    }
    assert(len * target_rate <= 0x1_0000_0000_0000_0000 * 0x1_0000_0000) by (nonlinear_arith)
        requires
            len <= 0x1_0000_0000_0000_0000,
            target_rate <= 0x1_0000_0000,
    ;
    let total: u128 = (len as u128) * (target_rate as u128);
    let n: u128 = total / (source_rate as u128);
    n <= usize::MAX as u128
}

/// Converts `samples` from `source_rate` to `target_rate`.
///
/// With equal rates, or with no samples, the result is the input, sample for
/// sample. Otherwise the result has `floor(len * target_rate / source_rate)`
/// samples, and sample `i` is `lerp(left, right, numerator, target_rate)`:
/// `left` and `right` are the source samples around position
/// `i * source_rate / target_rate` (`right` held at the last sample), and
/// `numerator / target_rate` is the fractional part of that position.
pub fn resample<T: Copy, F: Fn(T, T, u32, u32) -> T>(
    samples: &[T],
    source_rate: u32,
    target_rate: u32,
    lerp: F,
) -> (out: Vec<T>)
    requires
        resample_defined(samples@.len(), source_rate as nat, target_rate as nat),
        blend_is_total(lerp),
    ensures
        is_resampling(lerp, samples@, source_rate, target_rate, out@),
        source_rate == target_rate ==> out@ == samples@,
        samples@.len() == 0 ==> out@ == Seq::<T>::empty(),
        source_rate != target_rate && samples@.len() > 0 ==> out@.len() == resampled_len(
            samples@.len(),
            source_rate as nat,
            target_rate as nat,
        ),
{
    let len: usize = samples.len();
    if source_rate == target_rate || len == 0 {
        let out = crate::buffer::copy_range(samples, 0, len);
        assert(samples@.subrange(0, len as int) =~= samples@);
        return out;
    }
    assert(len * target_rate <= 0x1_0000_0000_0000_0000 * 0x1_0000_0000) by (nonlinear_arith)
        requires
            len <= 0x1_0000_0000_0000_0000,
            target_rate <= 0x1_0000_0000,
    ;
    let total: u128 = (len as u128) * (target_rate as u128);
    let new_len: usize = (total / (source_rate as u128)) as usize;
    let mut out: Vec<T> = Vec::with_capacity(new_len);
    let mut i: usize = 0;
    while i < new_len
        invariant
            len == samples@.len(),
            source_rate > 0,
            new_len == resampled_len(len as nat, source_rate as nat, target_rate as nat),
            i <= new_len,
            out@.len() == i,
            blend_is_total(lerp),
            forall|k: int|
                0 <= k < i ==> call_ensures(
                    lerp,
                    (
                        samples@[left_index(k as nat, source_rate as nat, target_rate as nat) as int],
                        samples@[right_index(
                            k as nat,
                            len as nat,
                            source_rate as nat,
                            target_rate as nat,
                        ) as int],
                        fraction(k as nat, source_rate as nat, target_rate as nat) as u32,
                        target_rate,
                    ),
                    #[trigger] out@[k],
                ),
        decreases new_len - i,
    {
        proof {
            lemma_grid_in_bounds(i as nat, len as nat, source_rate as nat, target_rate as nat);
        }
        assert(i * source_rate <= 0x1_0000_0000_0000_0000 * 0x1_0000_0000) by (nonlinear_arith)
            requires
                i <= 0x1_0000_0000_0000_0000,
                source_rate <= 0x1_0000_0000,
        ;
        let at: u128 = (i as u128) * (source_rate as u128);
        let left: usize = (at / (target_rate as u128)) as usize;
        let right: usize = if left + 1 < len {
            left + 1
        } else {
            len - 1
        };
        let numerator: u32 = (at % (target_rate as u128)) as u32;
        let sample: T = lerp(samples[left], samples[right], numerator, target_rate);
        let ghost before = out@;
        out.push(sample);
        assert(forall|k: int| 0 <= k < i ==> out@[k] == before[k]);
        i += 1;
    }
    out
}

} // verus!
