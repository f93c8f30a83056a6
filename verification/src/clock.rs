//! The software phase-locked loop: an online least-squares regression of
//! hardware timestamps against arrival instants, producing smooth,
//! drift-corrected frame times.
//!
//! All arithmetic is exact: the regression slope and offset are kept as
//! integer numerator/denominator pairs, so the correction is a mathematical
//! function of the sample window. Times are nanoseconds on a process-local
//! monotonic clock; the caller supplies each sample's arrival instant as
//! nanoseconds since that anchor.

use std::collections::VecDeque;
use vstd::prelude::*;

verus! {

/// The largest hardware or arrival span (in nanoseconds, about 68 s) a
/// regression window may cover; wider windows degrade to the offset-only
/// path so the fixed-width sums cannot overflow.
pub const SPREAD_LIMIT: i128 = 68_719_476_736;

/// The largest regression window; wider requests are capped so the sums stay
/// within fixed-width arithmetic.
pub const WINDOW_CAP: usize = 256;

/// The hardware timestamp of sample `i`, relative to the window's first.
pub open spec fn x_of(s: Seq<(u64, u64)>, i: int) -> int {
    s[i].0 - s[0].0
}

/// The arrival instant of sample `i`, relative to the window's first.
pub open spec fn y_of(s: Seq<(u64, u64)>, i: int) -> int {
    s[i].1 - s[0].1
}

/// Sum of the first `n` relative hardware timestamps.
pub open spec fn sum_x(s: Seq<(u64, u64)>, n: int) -> int
    decreases n,
{
    if n <= 0 {
        0
    } else {
        sum_x(s, n - 1) + x_of(s, n - 1)
    }
}

/// Sum of the first `n` relative arrival instants.
pub open spec fn sum_y(s: Seq<(u64, u64)>, n: int) -> int
    decreases n,
{
    if n <= 0 {
        0
    } else {
        sum_y(s, n - 1) + y_of(s, n - 1)
    }
}

/// Sum of the first `n` products x·y.
pub open spec fn sum_xy(s: Seq<(u64, u64)>, n: int) -> int
    decreases n,
{
    if n <= 0 {
        0
    } else {
        sum_xy(s, n - 1) + x_of(s, n - 1) * y_of(s, n - 1)
    }
}

/// Sum of the first `n` squares x·x.
pub open spec fn sum_xx(s: Seq<(u64, u64)>, n: int) -> int
    decreases n,
{
    if n <= 0 {
        0
    } else {
        sum_xx(s, n - 1) + x_of(s, n - 1) * x_of(s, n - 1)
    }
}

/// Numerator of the least-squares slope: n·Σxy − Σx·Σy.
pub open spec fn slope_num_of(s: Seq<(u64, u64)>) -> int {
    s.len() * sum_xy(s, s.len() as int) - sum_x(s, s.len() as int) * sum_y(s, s.len() as int)
}

/// Denominator of the least-squares slope: n·Σxx − (Σx)².
pub open spec fn slope_den_of(s: Seq<(u64, u64)>) -> int {
    s.len() * sum_xx(s, s.len() as int) - sum_x(s, s.len() as int) * sum_x(s, s.len() as int)
}

/// Numerator of the least-squares offset over the same denominator:
/// Σy·Σxx − Σx·Σxy.
pub open spec fn offset_num_of(s: Seq<(u64, u64)>) -> int {
    sum_y(s, s.len() as int) * sum_xx(s, s.len() as int) - sum_x(s, s.len() as int) * sum_xy(
        s,
        s.len() as int,
    )
}

/// Whether sample `i` lies within the span the fixed-width sums can carry.
pub open spec fn sample_in_span(s: Seq<(u64, u64)>, i: int) -> bool {
    -SPREAD_LIMIT <= x_of(s, i) <= SPREAD_LIMIT && -SPREAD_LIMIT <= y_of(s, i) <= SPREAD_LIMIT
}

/// Whether every sample of the window lies within the span the fixed-width
/// sums can carry.
pub open spec fn spread_ok(s: Seq<(u64, u64)>) -> bool {
    forall|i: int| 0 <= i < s.len() ==> #[trigger] sample_in_span(s, i)
}

/// Saturates an exact time to the u64 nanosecond range.
pub open spec fn clamp_u64(v: int) -> u64 {
    if v < 0 {
        0u64
    } else if v > u64::MAX {
        u64::MAX
    } else {
        v as u64
    }
}

/// Division truncating toward zero (what the machine computes), for a
/// positive divisor.
pub open spec fn tdiv(num: int, den: int) -> int {
    if num >= 0 {
        num / den
    } else {
        -((-num) / den)
    }
}

/// The offset-only degraded correction: anchor the window's first arrival and
/// add the hardware-clock advance since then.
pub open spec fn fallback_of(s: Seq<(u64, u64)>, hw_ns: u64) -> int {
    s[0].1 + hw_ns - s[0].0
}

/// The corrected time for `hw_ns` over window `s` (which already contains the
/// sample): the regression prediction when the window holds at least five
/// samples, stays within the representable span and is not degenerate; the
/// offset-only path otherwise.
pub open spec fn spec_correct(s: Seq<(u64, u64)>, hw_ns: u64) -> u64 {
    if s.len() < 5 || !spread_ok(s) || slope_den_of(s) <= 0 {
        clamp_u64(fallback_of(s, hw_ns))
    } else {
        clamp_u64(
            s[0].1 + tdiv(
                slope_num_of(s) * (hw_ns - s[0].0) + offset_num_of(s),
                slope_den_of(s),
            ),
        )
    }
}

/// The window after one `correct` call: the oldest sample leaves when the
/// window is full, then the new sample enters.
pub open spec fn window_after(s: Seq<(u64, u64)>, window: int, hw_ns: u64, arrival_ns: u64) -> Seq<
    (u64, u64),
> {
    if s.len() >= window {
        s.drop_first().push((hw_ns, arrival_ns))
    } else {
        s.push((hw_ns, arrival_ns))
    }
}

/// |a·b| ≤ bound(a)·bound(b).
proof fn lemma_mul_bound(a: int, b: int, ab: int, bb: int)
    by (nonlinear_arith)
    requires
        -ab <= a <= ab,
        -bb <= b <= bb,
        0 <= ab,
        0 <= bb,
    ensures
        -(ab * bb) <= a * b <= ab * bb,
{
}

/// The software PLL: a sliding window of `(hardware ns, arrival ns)` samples
/// and the regression state computed from it.
pub struct ClockSynchronizer {
    window_size: usize,
    history: VecDeque<(u64, u64)>,
    slope_num: i128,
    slope_den: i128,
    offset_num: i128,
}

impl ClockSynchronizer {
    /// The structural invariant: a bounded window within the cap.
    pub closed spec fn wf(&self) -> bool {
        &&& 2 <= self.window_size <= WINDOW_CAP
        &&& self.history@.len() <= self.window_size
    }

    /// The samples currently in the window.
    pub closed spec fn spec_history(&self) -> Seq<(u64, u64)> {
        self.history@
    }

    /// The window bound the synchronizer runs with.
    pub closed spec fn spec_window_size(&self) -> usize {
        self.window_size
    }

    /// A fresh synchronizer; the requested window is clamped to at least two
    /// samples (two points determine a line) and to the cap the fixed-width
    /// sums allow.
    pub fn new(window_size: usize) -> (r: Self)
        ensures
            r.wf(),
            r.spec_history().len() == 0,
            r.spec_window_size() == if window_size < 2 {
                2usize
            } else if window_size > WINDOW_CAP {
                WINDOW_CAP
            } else {
                window_size
            },
    {
        let w = if window_size < 2 {
            2
        } else if window_size > WINDOW_CAP {
            WINDOW_CAP
        } else {
            window_size
        };
        ClockSynchronizer {
            window_size: w,
            history: VecDeque::new(),
            slope_num: 1,
            slope_den: 1,
            offset_num: 0,
        }
    }

    /// Numerator of the slope of the last recomputed regression.
    pub closed spec fn spec_slope_num(&self) -> i128 {
        self.slope_num
    }

    /// Denominator of the slope of the last recomputed regression.
    pub closed spec fn spec_slope_den(&self) -> i128 {
        self.slope_den
    }

    /// Offset numerator of the last recomputed regression.
    pub closed spec fn spec_offset_num(&self) -> i128 {
        self.offset_num
    }

    /// The slope of the last recomputed regression, as an exact fraction
    /// `(numerator, denominator)`.
    pub fn slope_parts(&self) -> (r: (i128, i128))
        ensures
            r.0 == self.spec_slope_num(),
            r.1 == self.spec_slope_den(),
    {
        (self.slope_num, self.slope_den)
    }

    /// Records one sample and returns the corrected, drift-compensated time
    /// for it, in nanoseconds on the caller's monotonic anchor.
    ///
    /// The sample enters the window (evicting the oldest when full); with at
    /// least five well-spread samples the exact least-squares prediction is
    /// returned, and the stored slope is refreshed; otherwise the offset-only
    /// degraded path answers.
    pub fn correct(&mut self, hw_ns: u64, arrival_ns: u64) -> (r: u64)
        requires
            old(self).wf(),
        ensures
            final(self).wf(),
            final(self).spec_window_size() == old(self).spec_window_size(),
            final(self).spec_history() == window_after(
                old(self).spec_history(),
                old(self).spec_window_size() as int,
                hw_ns,
                arrival_ns,
            ),
            r == spec_correct(final(self).spec_history(), hw_ns),
            (final(self).spec_history().len() >= 5 && spread_ok(final(self).spec_history())
                && slope_den_of(final(self).spec_history()) > 0) ==> {
                &&& final(self).spec_slope_num() == slope_num_of(final(self).spec_history())
                &&& final(self).spec_slope_den() == slope_den_of(final(self).spec_history())
                &&& final(self).spec_offset_num() == offset_num_of(final(self).spec_history())
            },
            !(final(self).spec_history().len() >= 5 && spread_ok(final(self).spec_history())
                && slope_den_of(final(self).spec_history()) > 0) ==> {
                &&& final(self).spec_slope_num() == old(self).spec_slope_num()
                &&& final(self).spec_slope_den() == old(self).spec_slope_den()
                &&& final(self).spec_offset_num() == old(self).spec_offset_num()
            },
    {
        if self.history.len() >= self.window_size {
            self.history.pop_front();
        }
        self.history.push_back((hw_ns, arrival_ns));

        let ghost s = self.history@;
        let len = self.history.len();
        let first = self.history[0];
        let f_hw = first.0;
        let f_arr = first.1;

        if len < 5 {
            let v: i128 = f_arr as i128 + (hw_ns as i128 - f_hw as i128);
            return clamp_to_u64(v);
        }
        // Check that every sample is within the span the sums can carry.

        let mut ok: bool = true;
        let mut i: usize = 0;
        while i < len
            invariant
                len == s.len(),
                s == self.history@,
                f_hw == s[0].0,
                f_arr == s[0].1,
                i <= len,
                ok <==> forall|j: int| 0 <= j < i ==> #[trigger] sample_in_span(s, j),
            decreases len - i,
        {
            let e = self.history[i];
            let x: i128 = e.0 as i128 - f_hw as i128;
            let y: i128 = e.1 as i128 - f_arr as i128;
            proof {
                assert(x == x_of(s, i as int));
                assert(y == y_of(s, i as int));
            }
            if x < -SPREAD_LIMIT || x > SPREAD_LIMIT || y < -SPREAD_LIMIT || y > SPREAD_LIMIT {
                ok = false;
                proof {
                    assert(!sample_in_span(s, i as int));
                }
            } else {
                proof {
                    assert(sample_in_span(s, i as int));
                }
            }
            i = i + 1;
        }

        if !ok {
            let v: i128 = f_arr as i128 + (hw_ns as i128 - f_hw as i128);
            return clamp_to_u64(v);
        }
        // Accumulate the exact regression sums. The bounds carried by the
        // loop invariant keep every product inside i128: each span is at most
        // 2^36, so each product is at most 2^72 and each sum of at most 256
        // products stays below 2^80.

        let mut sx: i128 = 0;
        let mut sy: i128 = 0;
        let mut sxy: i128 = 0;
        let mut sxx: i128 = 0;
        let mut k: usize = 0;
        while k < len
            invariant
                len == s.len(),
                s == self.history@,
                f_hw == s[0].0,
                f_arr == s[0].1,
                k <= len,
                len <= WINDOW_CAP,
                spread_ok(s),
                sx == sum_x(s, k as int),
                sy == sum_y(s, k as int),
                sxy == sum_xy(s, k as int),
                sxx == sum_xx(s, k as int),
                -((k as int) * 68_719_476_736) <= sx as int <= (k as int) * 68_719_476_736,
                -((k as int) * 68_719_476_736) <= sy as int <= (k as int) * 68_719_476_736,
                -((k as int) * 4_722_366_482_869_645_213_696) <= sxy as int <= (k as int)
                    * 4_722_366_482_869_645_213_696,
                0 <= sxx as int <= (k as int) * 4_722_366_482_869_645_213_696,
            decreases len - k,
        {
            let e = self.history[k];
            let x: i128 = e.0 as i128 - f_hw as i128;
            let y: i128 = e.1 as i128 - f_arr as i128;
            proof {
                assert(x == x_of(s, k as int));
                assert(y == y_of(s, k as int));
                assert(sample_in_span(s, k as int));
                lemma_mul_bound(x as int, y as int, 68_719_476_736, 68_719_476_736);
                lemma_mul_bound(x as int, x as int, 68_719_476_736, 68_719_476_736);
                assert(x as int * x as int >= 0) by (nonlinear_arith);
            }
            sx = sx + x;
            sy = sy + y;
            sxy = sxy + x * y;
            sxx = sxx + x * x;
            k = k + 1;
        }

        let n: i128 = len as i128;
        proof {
            lemma_mul_bound(n as int, sxy as int, 256, 1_208_925_819_614_629_174_706_176);
            lemma_mul_bound(
                sx as int,
                sy as int,
                17_592_186_044_416,
                17_592_186_044_416,
            );
            lemma_mul_bound(n as int, sxx as int, 256, 1_208_925_819_614_629_174_706_176);
            lemma_mul_bound(
                sx as int,
                sx as int,
                17_592_186_044_416,
                17_592_186_044_416,
            );
            lemma_mul_bound(
                sy as int,
                sxx as int,
                17_592_186_044_416,
                1_208_925_819_614_629_174_706_176,
            );
            lemma_mul_bound(
                sx as int,
                sxy as int,
                17_592_186_044_416,
                1_208_925_819_614_629_174_706_176,
            );
        }
        let num_s: i128 = n * sxy - sx * sy;
        let den_s: i128 = n * sxx - sx * sx;
        let off_s: i128 = sy * sxx - sx * sxy;

        if den_s <= 0 {
            let v: i128 = f_arr as i128 + (hw_ns as i128 - f_hw as i128);
            return clamp_to_u64(v);
        }

        self.slope_num = num_s;
        self.slope_den = den_s;
        self.offset_num = off_s;

        let dx: i128 = hw_ns as i128 - f_hw as i128;
        proof {
            assert(s[s.len() - 1] == (hw_ns, arrival_ns));
            assert(sample_in_span(s, s.len() - 1));
            assert(x_of(s, s.len() - 1) == dx as int);
            assert(-SPREAD_LIMIT <= dx <= SPREAD_LIMIT);
            lemma_mul_bound(
                num_s as int,
                dx as int,
                618_970_019_642_690_137_449_562_112,
                68_719_476_736,
            );
        }
        let pred_num: i128 = num_s * dx + off_s;
        let q = tdiv_i128(pred_num, den_s);
        let v: i128 = f_arr as i128 + q;
        clamp_to_u64(v)
    }
}

/// Saturates an exact i128 time to the u64 nanosecond range.
fn clamp_to_u64(v: i128) -> (r: u64)
    ensures
        r == clamp_u64(v as int),
{
    if v < 0 {
        0
    } else if v > 0xFFFF_FFFF_FFFF_FFFF {
        u64::MAX
    } else {
        v as u64
    }
}

/// i128 division truncating toward zero, for a positive divisor.
fn tdiv_i128(num: i128, den: i128) -> (r: i128)
    requires
        den > 0,
        -170_141_183_460_469_231_731_687_303_715_884_105_727 <= num,
    ensures
        r == tdiv(num as int, den as int),
        num >= 0 ==> 0 <= r <= num,
        num < 0 ==> num <= r <= 0,
{
    if num >= 0 {
        let q: u128 = (num as u128) / (den as u128);
        proof {
            assert(num as u128 as int == num as int);
            assert(den as u128 as int == den as int);
            assert(0 <= (num as int) / (den as int) <= num as int) by (nonlinear_arith)
                requires
                    num >= 0,
                    den > 0,
            ;
        }
        q as i128
    } else {
        let m: i128 = -num;
        let q: u128 = (m as u128) / (den as u128);
        proof {
            assert(m as u128 as int == m as int);
            assert(den as u128 as int == den as int);
            assert(0 <= (m as int) / (den as int) <= m as int) by (nonlinear_arith)
                requires
                    m >= 0,
                    den > 0,
            ;
        }
        -(q as i128)
    }
}

/// Law: on exactly linear data the regression recovers the true slope
/// exactly. If every sample of a window of at least five satisfies
/// `q·y == p·x` (arrival advances `p/q` nanoseconds per hardware nanosecond),
/// then the computed slope fraction equals `p/q`:
/// `q · slope_num == p · slope_den`.
pub proof fn lemma_regression_recovers_slope(s: Seq<(u64, u64)>, p: int, q: int)
    requires
        s.len() >= 5,
        q > 0,
        forall|i: int| 0 <= i < s.len() ==> q * #[trigger] y_of(s, i) == p * x_of(s, i),
    ensures
        q * slope_num_of(s) == p * slope_den_of(s),
{
    lemma_linear_sums(s, p, q, s.len() as int);
    let n = s.len() as int;
    let sxv = sum_x(s, n);
    let syv = sum_y(s, n);
    let sxyv = sum_xy(s, n);
    let sxxv = sum_xx(s, n);
    assert(q * syv == p * sxv);
    assert(q * sxyv == p * sxxv);
    assert(q * (n * sxyv) == p * (n * sxxv)) by (nonlinear_arith)
        requires
            q * sxyv == p * sxxv,
    ;
    assert(q * (sxv * syv) == p * (sxv * sxv)) by (nonlinear_arith)
        requires
            q * syv == p * sxv,
    ;
    assert(q * (n * sxyv - sxv * syv) == q * (n * sxyv) - q * (sxv * syv)) by (nonlinear_arith);
    assert(p * (n * sxxv - sxv * sxv) == p * (n * sxxv) - p * (sxv * sxv)) by (nonlinear_arith);
}

/// On linear data the regression sums are proportional:
/// `q·Σy == p·Σx` and `q·Σxy == p·Σxx`.
proof fn lemma_linear_sums(s: Seq<(u64, u64)>, p: int, q: int, n: int)
    requires
        n <= s.len(),
        forall|i: int| 0 <= i < s.len() ==> q * #[trigger] y_of(s, i) == p * x_of(s, i),
    ensures
        q * sum_y(s, n) == p * sum_x(s, n),
        q * sum_xy(s, n) == p * sum_xx(s, n),
    decreases n,
{
    if n > 0 {
        lemma_linear_sums(s, p, q, n - 1);
        let xi = x_of(s, n - 1);
        let yi = y_of(s, n - 1);
        assert(q * yi == p * xi);
        assert(q * (sum_y(s, n - 1) + yi) == p * (sum_x(s, n - 1) + xi)) by (nonlinear_arith)
            requires
                q * sum_y(s, n - 1) == p * sum_x(s, n - 1),
                q * yi == p * xi,
        ;
        assert(q * (xi * yi) == p * (xi * xi)) by (nonlinear_arith)
            requires
                q * yi == p * xi,
        ;
        assert(q * (sum_xy(s, n - 1) + xi * yi) == p * (sum_xx(s, n - 1) + xi * xi))
            by (nonlinear_arith)
            requires
                q * sum_xy(s, n - 1) == p * sum_xx(s, n - 1),
                q * (xi * yi) == p * (xi * xi),
        ;
    }
}

} // verus!
