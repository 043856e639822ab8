use vstd::prelude::*;
use vstd::arithmetic::div_mod::{lemma_div_is_ordered, lemma_hoist_over_denominator};
use vstd::arithmetic::mul::lemma_mul_inequality;

verus! {

/// Denominator of the output cursor's own time base (`1 / 90000` s).
pub const CURSOR_TIME_BASE_DEN: u32 = 90000;

/// Output frame rate: each kept frame lasts `1 / 25` s.
pub const NOMINAL_FRAME_RATE: u32 = 25;

/// A time base: one unit is `num / den` seconds.
#[derive(Clone, Copy, Debug, PartialEq, Eq, Structural)]
pub struct TimeBase {
    pub num: u32,
    pub den: u32,
}

impl TimeBase {
    pub open spec fn wf(self) -> bool {
        self.num > 0 && self.den > 0
    }

    pub fn new(num: u32, den: u32) -> (r: TimeBase)
        ensures
            r.num == num,
            r.den == den,
    {
        TimeBase { num, den }
    }
}

/// Numerator of the factor that converts `from` units into `to` units.
pub open spec fn scale_num(from: TimeBase, to: TimeBase) -> nat {
    from.num as nat * to.den as nat
}

/// Denominator of the factor that converts `from` units into `to` units.
pub open spec fn scale_den(from: TimeBase, to: TimeBase) -> nat {
    from.den as nat * to.num as nat
}

/// Exact rational rescaling of a non-negative time value, rounded to the
/// nearest unit of the destination, halves rounded up.
pub open spec fn rescale_spec(value: nat, from: TimeBase, to: TimeBase) -> nat {
    (value * scale_num(from, to) + scale_den(from, to) / 2) / scale_den(from, to)
}

/// Converts `value`, counted in `from` units, into `to` units.
pub fn rescale(value: u64, from: TimeBase, to: TimeBase) -> (r: u128)
    requires
        from.wf(),
        to.wf(),
    ensures
        r as nat == rescale_spec(value as nat, from, to),
{
    assert(from.num as nat * to.den as nat <= 0xffff_fffe_0000_0001nat) by (nonlinear_arith)
        requires
            from.num <= 0xffff_ffffu32,
            to.den <= 0xffff_ffffu32,
    ;
    assert(from.den as nat * to.num as nat <= 0xffff_fffe_0000_0001nat) by (nonlinear_arith)
        requires
            from.den <= 0xffff_ffffu32,
            to.num <= 0xffff_ffffu32,
    ;
    let b: u64 = from.num as u64 * to.den as u64;
    let c: u64 = from.den as u64 * to.num as u64;
    assert(value as nat * b as nat <= 0xffff_ffff_ffff_fffe_0000_0000_0000_0001nat)
        by (nonlinear_arith)
        requires
            value <= 0xffff_ffff_ffff_ffffu64,
            b <= 0xffff_ffff_ffff_ffffu64,
    ;
    assert(c > 0) by (nonlinear_arith)
        requires
            c == from.den as nat * to.num as nat,
            from.den > 0,
            to.num > 0,
    ;
    (value as u128 * b as u128 + (c / 2) as u128) / c as u128
}

/// The position at which the next kept frame is presented, in the cursor's
/// own time base, and the fixed amount by which each kept frame moves it.
#[derive(Clone, Copy, Debug, PartialEq, Eq, Structural)]
pub struct OutputCursor {
    pub value: u64,
    pub time_base: TimeBase,
    pub step: u64,
}

impl OutputCursor {
    pub open spec fn wf(self) -> bool {
        self.time_base.wf() && self.step > 0
    }

    pub open spec fn new_spec() -> OutputCursor {
        OutputCursor {
            value: 0,
            time_base: TimeBase { num: 1, den: CURSOR_TIME_BASE_DEN },
            step: 3600,
        }
    }

    /// A cursor at zero in `1 / 90000` s units that moves one `1 / 25` s
    /// frame per kept frame.
    pub fn new() -> (r: OutputCursor)
        ensures
            r.wf(),
            r.value == 0,
            r.time_base == (TimeBase { num: 1, den: CURSOR_TIME_BASE_DEN }),
            r.step as nat == rescale_spec(
                1,
                TimeBase { num: 1, den: NOMINAL_FRAME_RATE },
                TimeBase { num: 1, den: CURSOR_TIME_BASE_DEN },
            ),
            r.step == 3600,
            r == OutputCursor::new_spec(),
    {
        let time_base = TimeBase::new(1, CURSOR_TIME_BASE_DEN);
        let step = rescale(1, TimeBase::new(1, NOMINAL_FRAME_RATE), time_base);
        assert(scale_num(TimeBase { num: 1, den: NOMINAL_FRAME_RATE }, time_base) == 90000);
        assert(scale_den(TimeBase { num: 1, den: NOMINAL_FRAME_RATE }, time_base) == 25);
        assert(25nat / 2 == 12) by (nonlinear_arith);
        assert((1nat * 90000 + 12) / 25 == 3600) by (nonlinear_arith);
        assert(step == 3600);
        OutputCursor { value: 0, time_base, step: step as u64 }
    }

    /// Returns the current position in the encoder's time base, then moves
    /// the cursor on by one frame.
    pub fn advance(&mut self, encoder_time_base: TimeBase) -> (pts: u128)
        requires
            old(self).wf(),
            encoder_time_base.wf(),
            old(self).value + old(self).step <= u64::MAX,
        ensures
            pts as nat == rescale_spec(old(self).value as nat, old(self).time_base, encoder_time_base),
            final(self).value == old(self).value + old(self).step,
            final(self).time_base == old(self).time_base,
            final(self).step == old(self).step,
    {
        let pts = rescale(self.value, self.time_base, encoder_time_base);
        self.value = self.value + self.step;
        pts
    }
}

/// Rescaling never reorders two time values.
pub proof fn lemma_rescale_monotonic(a: nat, b: nat, from: TimeBase, to: TimeBase)
    requires
        from.wf(),
        to.wf(),
        a <= b,
    ensures
        rescale_spec(a, from, to) <= rescale_spec(b, from, to),
{
    let n = scale_num(from, to);
    let d = scale_den(from, to);
    assert(d > 0) by (nonlinear_arith)
        requires
            d == from.den as nat * to.num as nat,
            from.den > 0,
            to.num > 0,
    ;
    lemma_mul_inequality(a as int, b as int, n as int);
    lemma_div_is_ordered((a * n + d / 2) as int, (b * n + d / 2) as int, d as int);
}

/// One cursor step converted to `to` units, times `scale_den`.
pub open spec fn step_in(cursor: OutputCursor, to: TimeBase) -> nat {
    cursor.step as nat * scale_num(cursor.time_base, to)
}

/// Kept frames are stamped `step` apart in the cursor's time base, however
/// many frames were skipped between them. Rescaled into an encoder time base
/// in which one step is a whole number `m` of units, consecutive stamps are
/// exactly `m` apart, and so strictly increasing.
pub proof fn lemma_kept_timestamps_evenly_spaced(
    cursor: OutputCursor,
    k: nat,
    encoder_time_base: TimeBase,
)
    requires
        cursor.wf(),
        encoder_time_base.wf(),
        step_in(cursor, encoder_time_base) % scale_den(cursor.time_base, encoder_time_base) == 0,
    ensures
        ({
            let m = step_in(cursor, encoder_time_base) / scale_den(
                cursor.time_base,
                encoder_time_base,
            );
            let t0 = rescale_spec(
                (cursor.value + k * cursor.step) as nat,
                cursor.time_base,
                encoder_time_base,
            );
            let t1 = rescale_spec(
                (cursor.value + (k + 1) * cursor.step) as nat,
                cursor.time_base,
                encoder_time_base,
            );
            &&& m > 0
            &&& t1 == t0 + m
            &&& t0 < t1
        }),
{
    let from = cursor.time_base;
    let to = encoder_time_base;
    let n = scale_num(from, to);
    let d = scale_den(from, to);
    let st: nat = cursor.step as nat;
    let m: nat = st * n / d;
    let a0: nat = (cursor.value + k * cursor.step) as nat;
    let a1: nat = (cursor.value + (k + 1) * cursor.step) as nat;
    assert(n > 0 && d > 0) by (nonlinear_arith)
        requires
            n == from.num as nat * to.den as nat,
            d == from.den as nat * to.num as nat,
            from.wf(),
            to.wf(),
    ;
    assert(st * n == m * d && m > 0) by (nonlinear_arith)
        requires
            n > 0,
            d > 0,
            st > 0,
            (st * n) % d == 0,
            m == st * n / d,
    ;
    assert(a1 * n + d / 2 == (a0 * n + d / 2) + m * d) by (nonlinear_arith)
        requires
            a0 == cursor.value + k * st,
            a1 == cursor.value + (k + 1) * st,
            st * n == m * d,
    ;
    lemma_hoist_over_denominator((a0 * n + d / 2) as int, m as int, d);
}

} // verus!
