//! The verification judge: compares an observed output tensor against a
//! claimed target by Euclidean distance and renders the accept decision.
//!
//! Tensor entries are fixed-point numbers: an entry `v` stands for the
//! real number `v / FIXED_SCALE`.  The distance of two rows is then the
//! integer square root of the summed squared entry differences, itself a
//! fixed-point number at the same scale, computed exactly — no rounding
//! beyond the final floor, and proved free of overflow.

use vstd::prelude::*;

use crate::ServiceError;

verus! {

/// Fixed-point denominator: an entry `v` denotes `v / FIXED_SCALE`.
pub const FIXED_SCALE: i64 = 1000000000;

/// The per-deployment acceptance threshold (a tenth), at `FIXED_SCALE`.
pub const ACCEPT_THRESHOLD: i64 = 100000000;

/// Largest magnitude a tensor entry may carry (2^50); keeps the summed
/// squares inside 128 bits.
pub const MAX_ELEM: i64 = 1125899906842624;

/// Largest row length the judge accepts (2^20).
pub const MAX_ROW: usize = 1048576;

/// A row whose entries the judge can square and sum without overflow.
pub open spec fn row_wf(r: Seq<i64>) -> bool {
    r.len() <= MAX_ROW && forall|j: int| 0 <= j < r.len() ==> -MAX_ELEM <= #[trigger] r[j]
        <= MAX_ELEM
}

/// A rectangular block of fixed-point numbers with its shape descriptor.
pub struct Tensor {
    pub data: Vec<Vec<i64>>,
    pub shape: Vec<usize>,
}

impl Tensor {
    /// The first row, which is what the judge compares; an absent first
    /// row counts as an empty one.
    pub open spec fn row0(self) -> Seq<i64> {
        if self.data@.len() > 0 {
            self.data@[0]@
        } else {
            Seq::empty()
        }
    }

    /// Every row is within the judge's size and magnitude bounds.
    pub open spec fn wf(self) -> bool {
        forall|i: int| 0 <= i < self.data@.len() ==> row_wf(#[trigger] self.data@[i]@)
    }

    /// Runtime check of `wf`, for callers outside the library.
    pub fn is_wf(&self) -> (r: bool)
        ensures
            r == self.wf(),
    {
        let mut i: usize = 0;
        while i < self.data.len()
            invariant
                0 <= i <= self.data@.len(),
                forall|k: int| 0 <= k < i ==> row_wf(#[trigger] self.data@[k]@),
            decreases self.data@.len() - i,
        {
            let row = &self.data[i];
            if row.len() > MAX_ROW {
                return false;
            }
            let mut j: usize = 0;
            while j < row.len()
                invariant
                    0 <= j <= row@.len(),
                    0 <= i < self.data@.len(),
                    row@ == self.data@[i as int]@,
                    row@.len() <= MAX_ROW,
                    forall|l: int| 0 <= l < j ==> -MAX_ELEM <= #[trigger] row@[l] <= MAX_ELEM,
                decreases row@.len() - j,
            {
                let v = row[j];
                if v < -MAX_ELEM || v > MAX_ELEM {
                    return false;
                }
                j += 1;
            }
            i += 1;
        }
        true
    }
}

/// The summed squared differences of two rows of equal length.
pub open spec fn sum_sq_diff(a: Seq<i64>, b: Seq<i64>) -> int
    decreases a.len(),
{
    if a.len() == 0 {
        0
    } else {
        sum_sq_diff(a.drop_last(), b.drop_last()) + (a.last() - b.last()) * (a.last() - b.last())
    }
}

/// `r` is the integer square root of `x`: the largest integer whose
/// square does not exceed `x`.
pub open spec fn is_isqrt(x: int, r: int) -> bool {
    r >= 0 && r * r <= x && (r + 1) * (r + 1) > x
}

/// DISTANCE DETERMINISM: the integer square root is unique, so the
/// distance contract pins a single value for any two rows.
pub proof fn lemma_isqrt_unique(x: int, r1: int, r2: int)
    requires
        is_isqrt(x, r1),
        is_isqrt(x, r2),
    ensures
        r1 == r2,
{
    if r1 < r2 {
        assert((r1 + 1) * (r1 + 1) <= r2 * r2) by (nonlinear_arith)
            requires
                0 <= r1 + 1 <= r2,
        ;
    }
    if r2 < r1 {
        assert((r2 + 1) * (r2 + 1) <= r1 * r1) by (nonlinear_arith)
            requires
                0 <= r2 + 1 <= r1,
        ;
    }
}

/// Integer square root by bisection.
fn isqrt_u128(x: u128) -> (r: u64)
    requires
        x <= 0x4000000000000000000000000000000,
    ensures
        is_isqrt(x as int, r as int),
        r <= 0x2000000000000000,
{
    let mut lo: u64 = 0;
    let mut hi: u64 = 0x2000000000000001;
    proof {
        assert((0x2000000000000001 as int) * (0x2000000000000001 as int)
            > 0x4000000000000000000000000000000) by (nonlinear_arith);
    }
    while hi - lo > 1
        invariant
            lo < hi,
            hi <= 0x2000000000000001,
            (lo as int) * (lo as int) <= x as int,
            (hi as int) * (hi as int) > x as int,
        decreases hi - lo,
    {
        let mid = lo + (hi - lo) / 2;
        proof {
            assert((mid as int) * (mid as int) <= 0x2000000000000001 * 0x2000000000000001)
                by (nonlinear_arith)
                requires
                    0 <= mid as int <= 0x2000000000000001,
            ;
        }
        let sq: u128 = (mid as u128) * (mid as u128);
        if sq <= x {
            lo = mid;
        } else {
            hi = mid;
        }
    }
    lo
}

/// The boolean accept decision alongside the distance it was made from.
#[derive(Clone, Copy, Debug, PartialEq, Eq, Structural)]
pub struct JudgeResult {
    pub accept: bool,
    pub distance: i64,
}

/// Euclidean distance of the first rows of two tensors, as a fixed-point
/// number at `FIXED_SCALE` (rounded down to the nearest representable
/// value).  Fails with `ShapeMismatch`, before any arithmetic, exactly
/// when the first rows differ in length.
pub fn distance(a: &Tensor, b: &Tensor) -> (r: Result<i64, ServiceError>)
    requires
        a.wf(),
        b.wf(),
    ensures
        a.row0().len() == b.row0().len() ==> (r matches Ok(d) && is_isqrt(
            sum_sq_diff(a.row0(), b.row0()),
            d as int,
        ) && d >= 0),
        a.row0().len() != b.row0().len() ==> r == Err::<i64, ServiceError>(
            ServiceError::ShapeMismatch,
        ),
{
    let la = if a.data.len() > 0 {
        a.data[0].len()
    } else {
        0
    };
    let lb = if b.data.len() > 0 {
        b.data[0].len()
    } else {
        0
    };
    if la != lb {
        return Err(ServiceError::ShapeMismatch);
    }
    let mut sum: u128 = 0;
    let mut k: usize = 0;
    proof {
        assert(a.row0().take(0) =~= Seq::<i64>::empty());
        assert(b.row0().take(0) =~= Seq::<i64>::empty());
    }
    while k < la
        invariant
            0 <= k <= la,
            la == a.row0().len(),
            lb == b.row0().len(),
            la == lb,
            a.wf(),
            b.wf(),
            la > 0 ==> a.data@.len() > 0 && a.row0() == a.data@[0]@,
            la > 0 ==> b.data@.len() > 0 && b.row0() == b.data@[0]@,
            row_wf(a.row0()),
            row_wf(b.row0()),
            sum == sum_sq_diff(a.row0().take(k as int), b.row0().take(k as int)),
            sum <= (k as int) * 0x40000000000000000000000000,
        decreases la - k,
    {
        let x = a.data[0][k];
        let y = b.data[0][k];
        let d: i64 = x - y;
        proof {
            assert(0 <= (d as int) * (d as int) <= 0x40000000000000000000000000)
                by (nonlinear_arith)
                requires
                    -0x8000000000000 <= d as int <= 0x8000000000000,
            ;
        }
        let sq: i128 = (d as i128) * (d as i128);
        proof {
            let pa = a.row0().take(k as int + 1);
            let pb = b.row0().take(k as int + 1);
            assert(pa.drop_last() =~= a.row0().take(k as int));
            assert(pb.drop_last() =~= b.row0().take(k as int));
            assert(pa.last() == a.row0()[k as int]);
            assert(pb.last() == b.row0()[k as int]);
            assert((k as int) * 0x40000000000000000000000000 + 0x40000000000000000000000000
                == (k as int + 1) * 0x40000000000000000000000000) by (nonlinear_arith);
        }
        sum = sum + (sq as u128);
        k += 1;
    }
    proof {
        assert(a.row0().take(la as int) =~= a.row0());
        assert(b.row0().take(lb as int) =~= b.row0());
        assert((la as int) * 0x40000000000000000000000000
            <= 0x4000000000000000000000000000000) by (nonlinear_arith)
            requires
                la as int <= 0x100000,
        ;
    }
    let d = isqrt_u128(sum);
    Ok(d as i64)
}

/// An element-for-element copy of a block of rows.
pub fn copy_rows(v: &Vec<Vec<i64>>) -> (r: Vec<Vec<i64>>)
    ensures
        r@.len() == v@.len(),
        forall|i: int| 0 <= i < v@.len() ==> #[trigger] r@[i]@ == v@[i]@,
{
    let mut out: Vec<Vec<i64>> = Vec::new();
    let mut i: usize = 0;
    while i < v.len()
        invariant
            0 <= i <= v@.len(),
            out@.len() == i,
            forall|k: int| 0 <= k < i ==> #[trigger] out@[k]@ == v@[k]@,
        decreases v@.len() - i,
    {
        let row = &v[i];
        let mut r: Vec<i64> = Vec::new();
        let mut j: usize = 0;
        while j < row.len()
            invariant
                0 <= j <= row@.len(),
                r@ == row@.take(j as int),
            decreases row@.len() - j,
        {
            r.push(row[j]);
            proof {
                assert(r@ =~= row@.take(j as int + 1));
            }
            j += 1;
        }
        proof {
            assert(row@.take(row@.len() as int) =~= row@);
        }
        out.push(r);
        i += 1;
    }
    out
}

/// The pure accept decision: strictly below the threshold accepts.
pub fn judge(distance: i64, threshold: i64) -> (r: bool)
    ensures
        r == (distance < threshold),
{
    distance < threshold
}

/// Computes the distance of the two first rows and judges it against
/// `threshold` in one step.
pub fn evaluate(observed: &Tensor, target: &Tensor, threshold: i64) -> (r: Result<
    JudgeResult,
    ServiceError,
>)
    requires
        observed.wf(),
        target.wf(),
    ensures
        observed.row0().len() == target.row0().len() ==> (r matches Ok(j) && is_isqrt(
            sum_sq_diff(observed.row0(), target.row0()),
            j.distance as int,
        ) && j.accept == (j.distance < threshold)),
        observed.row0().len() != target.row0().len() ==> r == Err::<JudgeResult, ServiceError>(
            ServiceError::ShapeMismatch,
        ),
{
    match distance(observed, target) {
        Ok(d) => Ok(JudgeResult { accept: judge(d, threshold), distance: d }),
        Err(e) => Err(e),
    }
}

} // verus!
