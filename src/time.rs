use vstd::arithmetic::div_mod::{lemma_div_is_ordered, lemma_div_multiples_vanish};
use vstd::arithmetic::mul::lemma_mul_inequality;
use crate::text::{decimal, push_char, push_decimal};
use vstd::prelude::*;

verus! {

/// The duration of one timestamp tick, as the rational `num / den` seconds.
#[derive(Debug, Clone, Copy)]
pub struct TimeBase(pub u32, pub u32);

/// A tick count, meaningful only together with the time base of its stream.
#[derive(Debug, Clone, Copy, PartialEq, Eq, Structural)]
pub struct Timestamp(pub i64);

/// Division of `a` by a positive `b`, rounding toward zero.
pub open spec fn trunc_div(a: int, b: int) -> int {
    if a >= 0 {
        a / b
    } else {
        -((-a) / b)
    }
}

/// `v` clamped into the range of `i64`.
pub open spec fn clamp_i64(v: int) -> int {
    if v < i64::MIN {
        i64::MIN as int
    } else if v > i64::MAX {
        i64::MAX as int
    } else {
        v
    }
}

impl TimeBase {
    /// Both components are strictly positive.
    pub open spec fn wf(self) -> bool {
        self.0 > 0 && self.1 > 0
    }

    /// `ts` ticks of `self` expressed in ticks of `dst`: the exact value
    /// `ts * num_src * den_dst / (den_src * num_dst)` rounded toward zero,
    /// saturated into the range of `i64`.
    pub open spec fn rescale_spec(self, ts: int, dst: TimeBase) -> int {
        clamp_i64(
            trunc_div(
                ts * (self.0 as int) * (dst.1 as int),
                (self.1 as int) * (dst.0 as int),
            ),
        )
    }

    pub fn new(num: u32, den: u32) -> (r: TimeBase)
        requires
            num > 0,
            den > 0,
        ensures
            r.0 == num,
            r.1 == den,
            r.wf(),
    {
        TimeBase(num, den)
    }

    /// Like `new`, but reports a zero component with `None`.
    pub fn checked_new(num: u32, den: u32) -> (r: Option<TimeBase>)
        ensures
            r is Some <==> (num > 0 && den > 0),
            r matches Some(tb) ==> tb.0 == num && tb.1 == den && tb.wf(),
    {
        if num > 0 && den > 0 {
            Some(TimeBase(num, den))
        } else {
            None
        }
    }

    /// The time base written as `num/den`.
    pub fn to_string(&self) -> (r: String)
        ensures
            r@ == decimal(self.0 as nat) + seq!['/'] + decimal(self.1 as nat),
    {
        let mut s = String::new();
        push_decimal(&mut s, self.0);
        push_char(&mut s, '/');
        push_decimal(&mut s, self.1);
        assert(s@ =~= decimal(self.0 as nat) + seq!['/'] + decimal(self.1 as nat));
        s
    }

    pub fn rescale(&self, ts: Timestamp, dst: TimeBase) -> (r: Timestamp)
        requires
            self.wf(),
            dst.wf(),
        ensures
            r.0 as int == self.rescale_spec(ts.0 as int, dst),
    {
        let neg = ts.0 < 0;
        let mag: u128 = if neg {
            (0i128 - ts.0 as i128) as u128
        } else {
            ts.0 as u128
        };
        let sn = self.0 as u128;
        let sd = self.1 as u128;
        let dn = dst.0 as u128;
        let dd = dst.1 as u128;
        assert(mag * sn <= 0x8000_0000_0000_0000u128 * 0xffff_ffffu128) by (nonlinear_arith)
            requires
                mag <= 0x8000_0000_0000_0000u128,
                sn <= 0xffff_ffffu128,
        ;
        let m1 = mag * sn;
        assert(m1 * dd <= 0x8000_0000_0000_0000u128 * 0xffff_ffffu128 * 0xffff_ffffu128)
            by (nonlinear_arith)
            requires
                m1 <= 0x8000_0000_0000_0000u128 * 0xffff_ffffu128,
                dd <= 0xffff_ffffu128,
        ;
        let n = m1 * dd;
        assert(sd * dn <= 0xffff_ffffu128 * 0xffff_ffffu128) by (nonlinear_arith)
            requires
                sd <= 0xffff_ffffu128,
                dn <= 0xffff_ffffu128,
        ;
        assert(sd * dn > 0) by (nonlinear_arith)
            requires
                sd > 0,
                dn > 0,
        ;
        let d = sd * dn;
        let q = n / d;
        proof {
            let t = ts.0 as int;
            let a = t * (self.0 as int) * (dst.1 as int);
            if neg {
                assert(n as int == -a) by (nonlinear_arith)
                    requires
                        n as int == (-t) * (sn as int) * (dd as int),
                        a == t * (sn as int) * (dd as int),
                ;
            } else {
                assert(a >= 0) by (nonlinear_arith)
                    requires
                        t >= 0,
                        a == t * (sn as int) * (dd as int),
                        sn >= 0,
                        dd >= 0,
                ;
            }
        }
        if !neg {
            if q > i64::MAX as u128 {
                Timestamp(i64::MAX)
            } else {
                Timestamp(q as i64)
            }
        } else {
            if q >= 0x8000_0000_0000_0000u128 {
                Timestamp(i64::MIN)
            } else {
                Timestamp(0i64 - q as i64)
            }
        }
    }
}

/// Rescaling a timestamp into its own time base returns it unchanged.
pub proof fn lemma_rescale_identity(base: TimeBase, ts: Timestamp)
    requires
        base.wf(),
    ensures
        base.rescale_spec(ts.0 as int, base) == ts.0 as int,
{
    let t = ts.0 as int;
    let k = (base.0 as int) * (base.1 as int);
    assert(k > 0) by (nonlinear_arith)
        requires
            base.0 > 0,
            base.1 > 0,
            k == (base.0 as int) * (base.1 as int),
    ;
    assert(t * (base.0 as int) * (base.1 as int) == k * t) by (nonlinear_arith)
        requires
            k == (base.0 as int) * (base.1 as int),
    ;
    assert((base.1 as int) * (base.0 as int) == k) by (nonlinear_arith)
        requires
            k == (base.0 as int) * (base.1 as int),
    ;
    lemma_div_multiples_vanish(t, k);
    if t < 0 {
        assert(-(k * t) == k * (-t)) by (nonlinear_arith);
        lemma_div_multiples_vanish(-t, k);
    }
}

/// Rounding toward zero preserves order.
proof fn lemma_trunc_div_monotonic(a: int, b: int, d: int)
    requires
        a <= b,
        d > 0,
    ensures
        trunc_div(a, d) <= trunc_div(b, d),
{
    if a >= 0 {
        lemma_div_is_ordered(a, b, d);
    } else if b >= 0 {
        lemma_div_is_ordered(0, -a, d);
        lemma_div_is_ordered(0, b, d);
    } else {
        lemma_div_is_ordered(-b, -a, d);
    }
}

/// Rescaling preserves order: a later timestamp never rescales to an
/// earlier one, whatever the two valid time bases.
pub proof fn lemma_rescale_monotonic(src: TimeBase, dst: TimeBase, ts1: Timestamp, ts2: Timestamp)
    requires
        src.wf(),
        dst.wf(),
        ts1.0 < ts2.0,
    ensures
        src.rescale_spec(ts1.0 as int, dst) <= src.rescale_spec(ts2.0 as int, dst),
{
    let k = (src.0 as int) * (dst.1 as int);
    let d = (src.1 as int) * (dst.0 as int);
    assert(k >= 0 && d > 0) by (nonlinear_arith)
        requires
            src.wf(),
            dst.wf(),
            k == (src.0 as int) * (dst.1 as int),
            d == (src.1 as int) * (dst.0 as int),
    ;
    let t1 = ts1.0 as int;
    let t2 = ts2.0 as int;
    lemma_mul_inequality(t1, t2, k);
    assert(t1 * (src.0 as int) * (dst.1 as int) == t1 * k) by (nonlinear_arith)
        requires
            k == (src.0 as int) * (dst.1 as int),
    ;
    assert(t2 * (src.0 as int) * (dst.1 as int) == t2 * k) by (nonlinear_arith)
        requires
            k == (src.0 as int) * (dst.1 as int),
    ;
    lemma_trunc_div_monotonic(t1 * k, t2 * k, d);
}

/// Where the ratio is exact, so is the rescaled timestamp: when
/// `ts * num_src * den_dst` is `q` times `den_src * num_dst` and `q` fits in
/// an `i64`, rescaling gives `q`.
pub proof fn lemma_rescale_exact(src: TimeBase, dst: TimeBase, ts: Timestamp, q: int)
    requires
        src.wf(),
        dst.wf(),
        (ts.0 as int) * (src.0 as int) * (dst.1 as int) == q * ((src.1 as int) * (dst.0 as int)),
        i64::MIN <= q <= i64::MAX,
    ensures
        src.rescale_spec(ts.0 as int, dst) == q,
{
    let d = (src.1 as int) * (dst.0 as int);
    assert(d > 0) by (nonlinear_arith)
        requires
            src.wf(),
            dst.wf(),
            d == (src.1 as int) * (dst.0 as int),
    ;
    assert(q * d == d * q) by (nonlinear_arith);
    lemma_div_multiples_vanish(q, d);
    if q * d < 0 {
        assert(q < 0) by (nonlinear_arith)
            requires
                q * d < 0,
                d > 0,
        ;
        assert(-(d * q) == d * (-q)) by (nonlinear_arith);
        lemma_div_multiples_vanish(-q, d);
    } else {
        assert(q >= 0) by (nonlinear_arith)
            requires
                q * d >= 0,
                d > 0,
        ;
    }
}

} // verus!
