use vstd::prelude::*;

verus! {

/// Per-pixel luma deltas at or below this value are treated as noise.
pub const NOISE_THRESHOLD: u8 = 50;

/// Grey value of one interleaved three-channel pixel: the truncated mean.
pub open spec fn luma(c0: u8, c1: u8, c2: u8) -> u8 {
    ((c0 as nat + c1 as nat + c2 as nat) / 3) as u8
}

/// The grey image of an interleaved three-channel plane, one byte per pixel.
pub open spec fn lumas(data: Seq<u8>) -> Seq<u8> {
    Seq::new(data.len() / 3, |i: int| luma(data[3 * i], data[3 * i + 1], data[3 * i + 2]))
}

pub open spec fn abs_delta(a: u8, b: u8) -> nat {
    if a >= b {
        (a - b) as nat
    } else {
        (b - a) as nat
    }
}

/// What one pixel adds to a frame's change magnitude.
pub open spec fn contribution(before: u8, now: u8) -> nat {
    if abs_delta(before, now) > NOISE_THRESHOLD as nat {
        abs_delta(before, now)
    } else {
        0
    }
}

/// Sum of the contributions of the first `k` pixels.
pub open spec fn diff_sum(before: Seq<u8>, now: Seq<u8>, k: int) -> nat
    decreases k,
{
    if k <= 0 {
        0
    } else {
        diff_sum(before, now, k - 1) + contribution(before[k - 1], now[k - 1])
    }
}

/// Change magnitude of a grey image against a baseline; an empty baseline
/// (the very first frame) contributes nothing.
pub open spec fn magnitude_of(before: Seq<u8>, now: Seq<u8>) -> nat {
    if before.len() == 0 {
        0
    } else {
        diff_sum(before, now, now.len() as int)
    }
}

/// A baseline may take a frame when it is still empty or has one entry per pixel.
pub open spec fn fits(baseline: Seq<u8>, data: Seq<u8>) -> bool {
    data.len() % 3 == 0 && (baseline.len() == 0 || baseline.len() == data.len() / 3)
}

pub fn pixel_luma(c0: u8, c1: u8, c2: u8) -> (r: u8)
    ensures
        r == luma(c0, c1, c2),
{
    ((c0 as u16 + c1 as u16 + c2 as u16) / 3) as u8
}

pub fn pixel_contribution(before: u8, now: u8) -> (r: u8)
    ensures
        r as nat == contribution(before, now),
{
    let delta: u8 = if before >= now {
        before - now
    } else {
        now - before
    };
    if delta > NOISE_THRESHOLD {
        delta
    } else {
        0
    }
}

/// Scores one frame against the baseline and replaces the baseline by the
/// frame's grey image, whatever the caller then decides about the frame.
pub fn score(baseline: &mut Vec<u8>, data: &[u8]) -> (magnitude: u128)
    requires
        fits(old(baseline)@, data@),
    ensures
        final(baseline)@ == lumas(data@),
        final(baseline)@.len() == data@.len() / 3,
        magnitude == magnitude_of(old(baseline)@, lumas(data@)),
{
    let dlen = data.len();
    let npix = dlen / 3;
    let cold = baseline.len() == 0;
    let ghost start = baseline@;
    let ghost target = lumas(data@);
    let mut acc: u128 = 0;
    let mut i: usize = 0;
    while i < npix
        invariant
            dlen == data@.len(),
            npix == data@.len() / 3,
            data@.len() % 3 == 0,
            target == lumas(data@),
            start == old(baseline)@,
            0 <= i <= npix,
            cold == (start.len() == 0),
            !cold ==> start.len() == npix,
            cold ==> baseline@ == target.subrange(0, i as int),
            !cold ==> baseline@.len() == npix,
            !cold ==> forall|j: int| 0 <= j < i ==> baseline@[j] == target[j],
            !cold ==> forall|j: int| i <= j < npix ==> baseline@[j] == start[j],
            cold ==> acc == 0,
            !cold ==> acc == diff_sum(start, target, i as int),
            acc <= 255 * i,
        decreases npix - i,
    {
        assert(3 * i + 2 < data@.len()) by (nonlinear_arith)
            requires
                i < npix,
                npix == data@.len() / 3,
        ;
        let k: usize = 3 * i;
        let now = pixel_luma(data[k], data[k + 1], data[k + 2]);
        assert(now == target[i as int]);
        if cold {
            baseline.push(now);
            assert(baseline@ == target.subrange(0, i + 1));
        } else {
            let before = baseline[i];
            let c = pixel_contribution(before, now);
            acc = acc + c as u128;
            baseline.set(i, now);
        }
        i = i + 1;
    }
    proof {
        if cold {
            assert(baseline@ == target);
        } else {
            assert(baseline@ =~= target);
        }
    }
    acc
}

proof fn lemma_diff_sum_self(s: Seq<u8>, k: int)
    requires
        0 <= k <= s.len(),
    ensures
        diff_sum(s, s, k) == 0,
    decreases k,
{
    if k > 0 {
        lemma_diff_sum_self(s, k - 1);
    }
}

/// Scoring a frame right after scoring the same frame gives zero: the
/// first call leaves the baseline equal to the frame's grey image.
pub proof fn lemma_same_frame_twice_scores_zero(data: Seq<u8>)
    ensures
        magnitude_of(lumas(data), lumas(data)) == 0,
{
    lemma_diff_sum_self(lumas(data), lumas(data).len() as int);
}

proof fn lemma_diff_sum_uniform(before: Seq<u8>, now: Seq<u8>, delta: nat, k: int)
    requires
        0 <= k <= now.len(),
        before.len() == now.len(),
        delta > NOISE_THRESHOLD as nat,
        forall|i: int| 0 <= i < now.len() ==> abs_delta(#[trigger] before[i], now[i]) == delta,
    ensures
        diff_sum(before, now, k) == k * delta,
    decreases k,
{
    if k > 0 {
        lemma_diff_sum_uniform(before, now, delta, k - 1);
        assert(abs_delta(before[k - 1], now[k - 1]) == delta);
        assert(contribution(before[k - 1], now[k - 1]) == delta);
        assert((k - 1) * delta + delta == k * delta) by (nonlinear_arith);
    } else {
        assert(k * delta == 0) by (nonlinear_arith)
            requires
                k == 0,
        ;
    }
}

/// When every pixel of a frame moves by the same `delta` above the noise
/// threshold, the change magnitude is exactly `pixel_count * delta`.
pub proof fn lemma_uniform_delta_magnitude(before: Seq<u8>, now: Seq<u8>, delta: nat)
    requires
        before.len() == now.len(),
        before.len() > 0,
        delta > NOISE_THRESHOLD as nat,
        forall|i: int| 0 <= i < now.len() ==> abs_delta(#[trigger] before[i], now[i]) == delta,
    ensures
        magnitude_of(before, now) == now.len() * delta,
{
    lemma_diff_sum_uniform(before, now, delta, now.len() as int);
}

} // verus!
