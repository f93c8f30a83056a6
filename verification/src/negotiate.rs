//! Capability negotiation: scoring every hardware-advertised
//! `(width, height, format)` candidate against the prioritized wishes of a
//! `CameraConfig` and selecting the best one.
//!
//! A candidate that fails a `Required` wish is never eligible; if nothing is
//! eligible, negotiation fails with `FormatNotSupported`. Among the eligible
//! candidates the highest score wins, and the earliest candidate wins a tie.

use vstd::prelude::*;

use crate::config::CameraConfig;
use crate::config::Priority;
use crate::error::CameraError;
use crate::fourcc::PixelFormat;

verus! {

/// The outcome of negotiation, consumed by the capture session.
#[derive(Clone, Copy, Debug, PartialEq, Eq, Structural)]
pub struct NegotiatedFormat {
    pub width: u32,
    pub height: u32,
    pub format: PixelFormat,
    pub fps: u32,
}

/// |a - b| over u32, as a mathematical integer.
pub open spec fn abs_diff(a: u32, b: u32) -> int {
    if a >= b {
        a - b
    } else {
        b - a
    }
}

/// The priority of the first resolution wish among the first `n` that matches
/// `(w, h)` exactly, if any.
pub open spec fn first_res_match_upto(
    rs: Seq<(u32, u32, Priority)>,
    w: u32,
    h: u32,
    n: int,
) -> Option<Priority>
    decreases n,
{
    if n <= 0 {
        None
    } else {
        match first_res_match_upto(rs, w, h, n - 1) {
            Some(p) => Some(p),
            None => if rs[n - 1].0 == w && rs[n - 1].1 == h {
                Some(rs[n - 1].2)
            } else {
                None
            },
        }
    }
}

/// The priority of the first format wish among the first `n` that matches `f`
/// exactly, if any.
pub open spec fn first_fmt_match_upto(
    fs: Seq<(PixelFormat, Priority)>,
    f: PixelFormat,
    n: int,
) -> Option<Priority>
    decreases n,
{
    if n <= 0 {
        None
    } else {
        match first_fmt_match_upto(fs, f, n - 1) {
            Some(p) => Some(p),
            None => if fs[n - 1].0 == f {
                Some(fs[n - 1].1)
            } else {
                None
            },
        }
    }
}

/// The negative city-block distance of `(w, h)` from the wish at `i`.
pub open spec fn res_dist_at(rs: Seq<(u32, u32, Priority)>, w: u32, h: u32, i: int) -> int {
    -(abs_diff(w, rs[i].0) + abs_diff(h, rs[i].1))
}

/// The largest of the negative distances to the first `n` resolution wishes
/// (`n >= 1`).
pub open spec fn max_res_dist_upto(rs: Seq<(u32, u32, Priority)>, w: u32, h: u32, n: int) -> int
    decreases n,
{
    if n <= 1 {
        res_dist_at(rs, w, h, 0)
    } else {
        let prev = max_res_dist_upto(rs, w, h, n - 1);
        let d = res_dist_at(rs, w, h, n - 1);
        if d > prev {
            d
        } else {
            prev
        }
    }
}

/// The exact-resolution component of a candidate's score: ten times the
/// priority weight of the first matching wish, 0 without a match.
pub open spec fn spec_res_exact(c: CameraConfig, w: u32, h: u32) -> int {
    match first_res_match_upto(c.resolution_req@, w, h, c.resolution_req@.len() as int) {
        Some(p) => p.spec_value() * 10,
        None => 0,
    }
}

/// The exact-format component of a candidate's score.
pub open spec fn spec_fmt_exact(c: CameraConfig, f: PixelFormat) -> int {
    match first_fmt_match_upto(c.format_req@, f, c.format_req@.len() as int) {
        Some(p) => p.spec_value() * 10,
        None => 0,
    }
}

/// The distance component: only charged when the exact-resolution component
/// is zero; -1000 when there are no resolution wishes at all.
pub open spec fn spec_res_distance(c: CameraConfig, w: u32, h: u32) -> int {
    if c.resolution_req@.len() == 0 {
        -1000
    } else {
        max_res_dist_upto(c.resolution_req@, w, h, c.resolution_req@.len() as int)
    }
}

/// A candidate's full score: exact-resolution and exact-format components,
/// the distance penalty when no resolution matched, and `w / 100` as a
/// tiebreaker favoring higher resolution.
pub open spec fn spec_score(c: CameraConfig, w: u32, h: u32, f: PixelFormat) -> int {
    spec_res_exact(c, w, h) + spec_fmt_exact(c, f) + (if spec_res_exact(c, w, h) == 0 {
        spec_res_distance(c, w, h)
    } else {
        0
    }) + w as int / 100
}

/// Whether some resolution wish is `Required`.
pub open spec fn has_required_res(c: CameraConfig) -> bool {
    exists|i: int|
        0 <= i < c.resolution_req@.len() && c.resolution_req@[i].2 == Priority::Required
}

/// Whether `(w, h)` matches some `Required` resolution wish exactly.
pub open spec fn meets_required_res(c: CameraConfig, w: u32, h: u32) -> bool {
    exists|i: int|
        0 <= i < c.resolution_req@.len() && c.resolution_req@[i].2 == Priority::Required
            && c.resolution_req@[i].0 == w && c.resolution_req@[i].1 == h
}

/// Whether some format wish is `Required`.
pub open spec fn has_required_fmt(c: CameraConfig) -> bool {
    exists|i: int| 0 <= i < c.format_req@.len() && c.format_req@[i].1 == Priority::Required
}

/// Whether `f` matches some `Required` format wish.
pub open spec fn meets_required_fmt(c: CameraConfig, f: PixelFormat) -> bool {
    exists|i: int|
        0 <= i < c.format_req@.len() && c.format_req@[i].1 == Priority::Required
            && c.format_req@[i].0 == f
}

/// Whether a candidate satisfies every `Required` wish: if any resolution
/// wish is `Required` the candidate must match one of the `Required`
/// resolutions exactly, and likewise for formats.
pub open spec fn spec_eligible(c: CameraConfig, cand: (u32, u32, PixelFormat)) -> bool {
    (has_required_res(c) ==> meets_required_res(c, cand.0, cand.1)) && (has_required_fmt(c)
        ==> meets_required_fmt(c, cand.2))
}

/// The index of the selected candidate among the first `n`: the earliest
/// eligible candidate with the strictly highest score so far.
pub open spec fn best_upto(
    c: CameraConfig,
    cands: Seq<(u32, u32, PixelFormat)>,
    n: int,
) -> Option<int>
    decreases n,
{
    if n <= 0 {
        None
    } else {
        let prev = best_upto(c, cands, n - 1);
        let i = n - 1;
        if !spec_eligible(c, cands[i]) {
            prev
        } else {
            match prev {
                None => Some(i),
                Some(b) => if spec_score(c, cands[i].0, cands[i].1, cands[i].2) > spec_score(
                    c,
                    cands[b].0,
                    cands[b].1,
                    cands[b].2,
                ) {
                    Some(i)
                } else {
                    prev
                },
            }
        }
    }
}

/// The index the negotiator selects over the whole candidate set, if any.
pub open spec fn spec_best(c: CameraConfig, cands: Seq<(u32, u32, PixelFormat)>) -> Option<int> {
    best_upto(c, cands, cands.len() as int)
}

/// The frame rate the negotiator reports: the requested one, or 30 when the
/// request names none.
pub open spec fn spec_fps_choice(c: CameraConfig) -> u32 {
    match c.fps_req {
        Some(fp) => fp.0,
        None => 30u32,
    }
}

/// What `best_upto` guarantees of its result: a selected index is in range
/// and eligible, scores at least as high as every eligible candidate seen,
/// and strictly higher than every earlier eligible candidate; `None` means
/// nothing seen was eligible.
pub proof fn lemma_best_upto_props(c: CameraConfig, cands: Seq<(u32, u32, PixelFormat)>, n: int)
    requires
        n <= cands.len(),
    ensures
        best_upto(c, cands, n) is None ==> forall|j: int|
            0 <= j < n ==> !spec_eligible(c, cands[j]),
        best_upto(c, cands, n) matches Some(b) ==> {
            &&& 0 <= b < n
            &&& spec_eligible(c, cands[b])
            &&& forall|j: int|
                0 <= j < n && spec_eligible(c, cands[j]) ==> spec_score(
                    c,
                    cands[j].0,
                    cands[j].1,
                    cands[j].2,
                ) <= spec_score(c, cands[b].0, cands[b].1, cands[b].2)
            &&& forall|j: int|
                0 <= j < b && spec_eligible(c, cands[j]) ==> spec_score(
                    c,
                    cands[j].0,
                    cands[j].1,
                    cands[j].2,
                ) < spec_score(c, cands[b].0, cands[b].1, cands[b].2)
        },
    decreases n,
{
    if n > 0 {
        lemma_best_upto_props(c, cands, n - 1);
    }
}

/// Law: whenever the negotiator selects a candidate, that candidate is
/// eligible and no eligible candidate scores higher — the selection is one of
/// the maxima, and the earliest of them.
pub proof fn lemma_negotiate_picks_maximum(
    c: CameraConfig,
    cands: Seq<(u32, u32, PixelFormat)>,
    b: int,
)
    requires
        spec_best(c, cands) == Some(b),
    ensures
        0 <= b < cands.len(),
        spec_eligible(c, cands[b]),
        forall|j: int|
            0 <= j < cands.len() && spec_eligible(c, cands[j]) ==> spec_score(
                c,
                cands[j].0,
                cands[j].1,
                cands[j].2,
            ) <= spec_score(c, cands[b].0, cands[b].1, cands[b].2),
        forall|j: int|
            0 <= j < b && spec_eligible(c, cands[j]) ==> spec_score(
                c,
                cands[j].0,
                cands[j].1,
                cands[j].2,
            ) < spec_score(c, cands[b].0, cands[b].1, cands[b].2),
{
    lemma_best_upto_props(c, cands, cands.len() as int);
}

/// Law: a request with a `Required` wish that no candidate satisfies selects
/// nothing, so negotiation fails with `FormatNotSupported`.
pub proof fn lemma_required_unsatisfied_fails(c: CameraConfig, cands: Seq<(u32, u32, PixelFormat)>)
    requires
        (has_required_res(c) && forall|i: int|
            0 <= i < cands.len() ==> !meets_required_res(c, cands[i].0, cands[i].1)) || (
        has_required_fmt(c) && forall|i: int|
            0 <= i < cands.len() ==> !meets_required_fmt(c, cands[i].2)),
    ensures
        spec_best(c, cands) is None,
{
    assert(forall|i: int| 0 <= i < cands.len() ==> !spec_eligible(c, cands[i]));
    lemma_best_upto_none(c, cands, cands.len() as int);
}

/// `best_upto` selects nothing when nothing is eligible.
proof fn lemma_best_upto_none(c: CameraConfig, cands: Seq<(u32, u32, PixelFormat)>, n: int)
    requires
        n <= cands.len(),
        forall|j: int| 0 <= j < n ==> !spec_eligible(c, cands[j]),
    ensures
        best_upto(c, cands, n) is None,
    decreases n,
{
    if n > 0 {
        lemma_best_upto_none(c, cands, n - 1);
    }
}

/// Scores one advertised candidate against the request.
pub fn calculate_score(config: &CameraConfig, w: u32, h: u32, fmt: PixelFormat) -> (r: i64)
    ensures
        r as int == spec_score(*config, w, h, fmt),
{
    let res_len = config.resolution_req.len();
    let mut res_exact: i64 = 0;
    let mut found_res: bool = false;
    let mut i: usize = 0;
    while i < res_len
        invariant
            res_len == config.resolution_req@.len(),
            i <= res_len,
            found_res <==> first_res_match_upto(config.resolution_req@, w, h, i as int) is Some,
            found_res ==> res_exact as int == spec_res_exact(*config, w, h),
            !found_res ==> res_exact == 0,
            0 <= res_exact <= 2550,
        decreases res_len - i,
    {
        let e = config.resolution_req[i];
        if !found_res && e.0 == w && e.1 == h {
            res_exact = (e.2.value() as i64) * 10;
            found_res = true;
            proof {
                lemma_first_res_match_stable(config.resolution_req@, w, h, i + 1 as int);
            }
        }
        i = i + 1;
    }

    let fmt_len = config.format_req.len();
    let mut fmt_exact: i64 = 0;
    let mut found_fmt: bool = false;
    let mut j: usize = 0;
    while j < fmt_len
        invariant
            fmt_len == config.format_req@.len(),
            j <= fmt_len,
            found_fmt <==> first_fmt_match_upto(config.format_req@, fmt, j as int) is Some,
            found_fmt ==> fmt_exact as int == spec_fmt_exact(*config, fmt),
            !found_fmt ==> fmt_exact == 0,
            0 <= fmt_exact <= 2550,
        decreases fmt_len - j,
    {
        let e = config.format_req[j];
        if !found_fmt && e.0 == fmt {
            fmt_exact = (e.1.value() as i64) * 10;
            found_fmt = true;
            proof {
                lemma_first_fmt_match_stable(config.format_req@, fmt, j + 1 as int);
            }
        }
        j = j + 1;
    }

    let dist: i64 = if res_exact == 0 {
        if res_len == 0 {
            -1000
        } else {
            let mut m: i64 = dist_to(config, 0, w, h);
            let mut k: usize = 1;
            while k < res_len
                invariant
                    res_len == config.resolution_req@.len(),
                    1 <= k <= res_len,
                    m as int == max_res_dist_upto(config.resolution_req@, w, h, k as int),
                    -8_589_934_590 <= m <= 0,
                decreases res_len - k,
            {
                let d = dist_to(config, k, w, h);
                if d > m {
                    m = d;
                }
                k = k + 1;
            }
            m
        }
    } else {
        0
    };

    proof {
        if res_exact == 0 && found_res {
            lemma_res_exact_bounds(*config, w, h);
        }
    }
    res_exact + fmt_exact + dist + (w / 100) as i64
}

/// The negative distance from `(w, h)` to the resolution wish at `idx`.
fn dist_to(config: &CameraConfig, idx: usize, w: u32, h: u32) -> (r: i64)
    requires
        idx < config.resolution_req@.len(),
    ensures
        r as int == res_dist_at(config.resolution_req@, w, h, idx as int),
        -8_589_934_590 <= r <= 0,
{
    let e = config.resolution_req[idx];
    let dw: i64 = if w >= e.0 {
        (w - e.0) as i64
    } else {
        (e.0 - w) as i64
    };
    let dh: i64 = if h >= e.1 {
        (h - e.1) as i64
    } else {
        (e.1 - h) as i64
    };
    -(dw + dh)
}

/// A first match stays the first match however far the scan continues.
proof fn lemma_first_res_match_stable(rs: Seq<(u32, u32, Priority)>, w: u32, h: u32, n: int)
    requires
        first_res_match_upto(rs, w, h, n) is Some,
        n <= rs.len(),
    ensures
        first_res_match_upto(rs, w, h, rs.len() as int) == first_res_match_upto(rs, w, h, n),
    decreases rs.len() - n,
{
    if n < rs.len() {
        lemma_first_res_match_stable(rs, w, h, n + 1);
    }
}

/// A first match stays the first match however far the scan continues.
proof fn lemma_first_fmt_match_stable(fs: Seq<(PixelFormat, Priority)>, f: PixelFormat, n: int)
    requires
        first_fmt_match_upto(fs, f, n) is Some,
        n <= fs.len(),
    ensures
        first_fmt_match_upto(fs, f, fs.len() as int) == first_fmt_match_upto(fs, f, n),
    decreases fs.len() - n,
{
    if n < fs.len() {
        lemma_first_fmt_match_stable(fs, f, n + 1);
    }
}

/// The exact-resolution component is ten times a priority weight.
proof fn lemma_res_exact_bounds(c: CameraConfig, w: u32, h: u32)
    ensures
        0 <= spec_res_exact(c, w, h) <= 2550,
{
}

/// Whether the candidate meets every `Required` wish of the request.
pub fn satisfies_required(config: &CameraConfig, w: u32, h: u32, fmt: PixelFormat) -> (r: bool)
    ensures
        r == spec_eligible(*config, (w, h, fmt)),
{
    let res_len = config.resolution_req.len();
    let mut any_req_res: bool = false;
    let mut res_ok: bool = false;
    let mut i: usize = 0;
    while i < res_len
        invariant
            res_len == config.resolution_req@.len(),
            i <= res_len,
            any_req_res <==> exists|k: int|
                0 <= k < i && config.resolution_req@[k].2 == Priority::Required,
            res_ok <==> exists|k: int|
                0 <= k < i && config.resolution_req@[k].2 == Priority::Required
                    && config.resolution_req@[k].0 == w && config.resolution_req@[k].1 == h,
        decreases res_len - i,
    {
        let e = config.resolution_req[i];
        if matches!(e.2, Priority::Required) {
            any_req_res = true;
            if e.0 == w && e.1 == h {
                res_ok = true;
            }
        }
        i = i + 1;
    }

    let fmt_len = config.format_req.len();
    let mut any_req_fmt: bool = false;
    let mut fmt_ok: bool = false;
    let mut j: usize = 0;
    while j < fmt_len
        invariant
            fmt_len == config.format_req@.len(),
            j <= fmt_len,
            any_req_fmt <==> exists|k: int|
                0 <= k < j && config.format_req@[k].1 == Priority::Required,
            fmt_ok <==> exists|k: int|
                0 <= k < j && config.format_req@[k].1 == Priority::Required
                    && config.format_req@[k].0 == fmt,
        decreases fmt_len - j,
    {
        let e = config.format_req[j];
        if matches!(e.1, Priority::Required) {
            any_req_fmt = true;
            if e.0 == fmt {
                fmt_ok = true;
            }
        }
        j = j + 1;
    }

    (!any_req_res || res_ok) && (!any_req_fmt || fmt_ok)
}

/// Selects the best advertised candidate for the request, or fails with
/// `FormatNotSupported` when no candidate satisfies the `Required` wishes
/// (in particular when nothing is advertised at all).
pub fn negotiate(config: &CameraConfig, candidates: &Vec<(u32, u32, PixelFormat)>) -> (r: Result<
    NegotiatedFormat,
    CameraError,
>)
    ensures
        r is Ok <==> spec_best(*config, candidates@) is Some,
        r matches Ok(nf) ==> {
            let b = spec_best(*config, candidates@).unwrap();
            &&& 0 <= b < candidates@.len()
            &&& nf.width == candidates@[b].0
            &&& nf.height == candidates@[b].1
            &&& nf.format == candidates@[b].2
            &&& nf.fps == spec_fps_choice(*config)
        },
        r matches Err(e) ==> e == CameraError::FormatNotSupported,
{
    let n = candidates.len();
    let mut best: Option<usize> = None;
    let mut best_score: i64 = 0;
    let mut i: usize = 0;
    while i < n
        invariant
            n == candidates@.len(),
            i <= n,
            best is None ==> best_upto(*config, candidates@, i as int) is None,
            best matches Some(b) ==> {
                &&& b < i
                &&& best_upto(*config, candidates@, i as int) == Some(b as int)
                &&& best_score as int == spec_score(
                    *config,
                    candidates@[b as int].0,
                    candidates@[b as int].1,
                    candidates@[b as int].2,
                )
            },
        decreases n - i,
    {
        let cand = candidates[i];
        if satisfies_required(config, cand.0, cand.1, cand.2) {
            let score = calculate_score(config, cand.0, cand.1, cand.2);
            match best {
                None => {
                    best = Some(i);
                    best_score = score;
                },
                Some(_) => {
                    if score > best_score {
                        best = Some(i);
                        best_score = score;
                    }
                },
            }
        }
        i = i + 1;
    }

    match best {
        None => Err(CameraError::FormatNotSupported),
        Some(b) => {
            let cand = candidates[b];
            let fps = match config.fps_req {
                Some(fp) => fp.0,
                None => 30,
            };
            Ok(NegotiatedFormat { width: cand.0, height: cand.1, format: cand.2, fps })
        },
    }
}

/// 0 ≤ a·b ≤ bound(a)·bound(b) for nonnegative factors.
proof fn lemma_nonneg_mul_bound(a: int, b: int, am: int, bm: int)
    by (nonlinear_arith)
    requires
        0 <= a <= am,
        0 <= b <= bm,
    ensures
        0 <= a * b <= am * bm,
{
}

/// The bus bandwidth a negotiated format needs, in megabits per second
/// (width · height · fps · bits-per-pixel, scaled down), saturated to u32.
pub open spec fn spec_required_mbps(fmt: NegotiatedFormat) -> u32 {
    let bits = fmt.width * fmt.height * fmt.fps * fmt.format.spec_bpp_estimate();
    if bits / 1_000_000 > u32::MAX {
        u32::MAX
    } else {
        (bits / 1_000_000) as u32
    }
}

/// Checks a negotiated format against a link's bandwidth budget: succeeds
/// exactly when the estimated demand fits, and otherwise reports the demand,
/// the budget and an alternative (a compressed format needs far less).
pub fn check_bandwidth(fmt: &NegotiatedFormat, limit_mbps: u32) -> (r: Result<(), CameraError>)
    ensures
        r is Ok <==> spec_required_mbps(*fmt) <= limit_mbps,
        r matches Err(e) ==> e matches CameraError::BandwidthExceeded {
            required_mbps,
            limit_mbps: lim,
            suggestion,
        } && required_mbps == spec_required_mbps(*fmt) && lim == limit_mbps && suggestion@
            == "Try MJPEG format"@,
{
    let w128: u128 = fmt.width as u128;
    let h128: u128 = fmt.height as u128;
    let fps_w: u128 = fmt.fps as u128;
    let b128: u128 = fmt.format.bpp_estimate() as u128;
    proof {
        assert(b128 <= 32);
        lemma_nonneg_mul_bound(w128 as int, h128 as int, 0xFFFF_FFFF, 0xFFFF_FFFF);
        lemma_nonneg_mul_bound(
            w128 as int * h128 as int,
            fps_w as int,
            18_446_744_065_119_617_025,
            0xFFFF_FFFF,
        );
        lemma_nonneg_mul_bound(
            w128 as int * h128 as int * fps_w as int,
            b128 as int,
            79_228_162_458_924_105_385_300_197_375,
            32,
        );
    }
    let bits: u128 = w128 * h128 * fps_w * b128;
    let mbps_wide: u128 = bits / 1_000_000;
    let required: u32 = if mbps_wide > 0xFFFF_FFFF {
        u32::MAX
    } else {
        mbps_wide as u32
    };
    if required <= limit_mbps {
        Ok(())
    } else {
        Err(
            CameraError::BandwidthExceeded {
                required_mbps: required,
                limit_mbps,
                suggestion: "Try MJPEG format".to_owned(),
            },
        )
    }
}

} // verus!
