//! The nearest-centroid confidence scorer.
//!
//! A trained model is two centroid points in feature space plus the index
//! of the centroid that represents the AI-like cluster. Centroid
//! components are non-negative fixed-point values in thousandths, matching
//! the rational feature vector: on the shared scale `den * 1000` both the
//! vector and the centroids are integers, the Euclidean distance is the
//! integer square root of an exact sum of squares, and the similarity
//! `1 / (1 + d)` becomes the exact ratio `scale / (scale + dist)`.

use vstd::prelude::*;
use vstd::arithmetic::div_mod::{
    lemma_div_is_ordered, lemma_div_multiples_vanish, lemma_fundamental_div_mod,
};
use crate::features::{FeatureVector, COUNT_CAP, FEATURE_DIM, NUM_CAP};

verus! {

/// Fixed-point scale of centroid components: thousandths.
pub const CENTROID_SCALE: u64 = 1000;

/// Largest accepted centroid component, in thousandths.
pub const CENTROID_CAP: u64 = 0x80000000;

/// Why a supplied model cannot be scored against.
#[derive(Clone, Copy, Debug, PartialEq, Eq, Structural)]
pub enum ModelError {
    /// A centroid's dimensionality differs from the feature vector length.
    WrongDimension,
    /// The AI cluster index is neither 0 nor 1.
    BadClusterIndex,
    /// A centroid component exceeds the fixed-point range.
    CentroidOutOfRange,
}

/// A two-centroid writing-style model, externally trained and read-only.
pub struct ClusterModel {
    /// Centroid of cluster 0, in thousandths, in feature order.
    pub centroid_a: Vec<u64>,
    /// Centroid of cluster 1, in thousandths, in feature order.
    pub centroid_b: Vec<u64>,
    /// Which of the two clusters holds the AI-like writing style.
    pub ai_cluster_index: usize,
}

impl ClusterModel {
    /// Both centroids have the feature dimension, the cluster index picks
    /// one of the two, and every component is in fixed-point range.
    pub open spec fn wf(&self) -> bool {
        &&& self.centroid_a@.len() == FEATURE_DIM
        &&& self.centroid_b@.len() == FEATURE_DIM
        &&& self.ai_cluster_index <= 1
        &&& forall|i: int| 0 <= i < self.centroid_a@.len() ==> self.centroid_a@[i] <= CENTROID_CAP
        &&& forall|i: int| 0 <= i < self.centroid_b@.len() ==> self.centroid_b@[i] <= CENTROID_CAP
    }

    /// Validates and packages a model; a malformed one is rejected here,
    /// never silently defaulted.
    pub fn new(centroid_a: Vec<u64>, centroid_b: Vec<u64>, ai_cluster_index: usize) -> (r: Result<
        ClusterModel,
        ModelError,
    >)
        ensures
            (match r {
                Ok(m) => {
                    &&& m.wf()
                    &&& m.centroid_a == centroid_a
                    &&& m.centroid_b == centroid_b
                    &&& m.ai_cluster_index == ai_cluster_index
                },
                Err(ModelError::WrongDimension) => centroid_a@.len() != FEATURE_DIM
                    || centroid_b@.len() != FEATURE_DIM,
                Err(ModelError::BadClusterIndex) => ai_cluster_index > 1,
                Err(ModelError::CentroidOutOfRange) => exists|i: int|
                    (0 <= i < centroid_a@.len() && centroid_a@[i] > CENTROID_CAP) || (0 <= i
                        < centroid_b@.len() && centroid_b@[i] > CENTROID_CAP),
            }),
            r is Err <==> !(ClusterModel {
                centroid_a,
                centroid_b,
                ai_cluster_index,
            }).wf(),
    {
        if centroid_a.len() != FEATURE_DIM || centroid_b.len() != FEATURE_DIM {
            return Err(ModelError::WrongDimension);
        }
        if ai_cluster_index > 1 {
            return Err(ModelError::BadClusterIndex);
        }
        let mut i: usize = 0;
        while i < FEATURE_DIM
            invariant
                centroid_a@.len() == FEATURE_DIM,
                centroid_b@.len() == FEATURE_DIM,
                i <= FEATURE_DIM,
                forall|k: int| 0 <= k < i ==> centroid_a@[k] <= CENTROID_CAP,
                forall|k: int| 0 <= k < i ==> centroid_b@[k] <= CENTROID_CAP,
            decreases FEATURE_DIM - i,
        {
            if centroid_a[i] > CENTROID_CAP || centroid_b[i] > CENTROID_CAP {
                return Err(ModelError::CentroidOutOfRange);
            }
            i = i + 1;
        }
        Ok(ClusterModel { centroid_a, centroid_b, ai_cluster_index })
    }
}

/// The exact sum of squared differences between the scaled vector
/// components `nums[i] * 1000` and the scaled centroid components
/// `cent[i] * den`, both integers on the shared scale `den * 1000`.
pub open spec fn sq_diff_sum(nums: Seq<u64>, cent: Seq<u64>, den: nat) -> nat
    decreases nums.len(),
{
    if nums.len() == 0 || cent.len() == 0 {
        0
    } else {
        sq_diff_sum(nums.drop_last(), cent.drop_last(), den) + (
        (nums.last() * 1000 - cent.last() * den) * (nums.last() * 1000 - cent.last() * den)) as nat
    }
}

/// `r` is the integer square root of `x`, rounded down.
pub open spec fn is_floor_sqrt(r: nat, x: nat) -> bool {
    r * r <= x < (r + 1) * (r + 1)
}

/// The integer square root, rounded down.
pub open spec fn sqrt_floor(x: nat) -> nat {
    choose|r: nat| is_floor_sqrt(r, x)
}

/// Floor square roots are unique.
pub proof fn lemma_floor_sqrt_unique(r1: nat, r2: nat, x: nat)
    by (nonlinear_arith)
    requires
        is_floor_sqrt(r1, x),
        is_floor_sqrt(r2, x),
    ensures
        r1 == r2,
{
}

/// A witness makes `sqrt_floor` definite.
pub proof fn lemma_floor_sqrt_of(r: nat, x: nat)
    requires
        is_floor_sqrt(r, x),
    ensures
        sqrt_floor(x) == r,
{
    assert(is_floor_sqrt(sqrt_floor(x), x)) by {
        assert(exists|s: nat| is_floor_sqrt(s, x));
    }
    lemma_floor_sqrt_unique(sqrt_floor(x), r, x);
}

/// The distance of the vector to a centroid on the shared scale: the
/// integer square root of the exact sum of squared differences. The real
/// Euclidean distance is this value divided by `den * 1000`, up to the
/// rounding of the root.
pub open spec fn scaled_distance(nums: Seq<u64>, cent: Seq<u64>, den: nat) -> nat {
    sqrt_floor(sq_diff_sum(nums, cent, den))
}

/// Integer square root by bisection.
fn isqrt(x: u128) -> (r: u64)
    ensures
        is_floor_sqrt(r as nat, x as nat),
        r == sqrt_floor(x as nat),
{
    let mut lo: u64 = 0;
    let mut hi: u64 = u64::MAX;
    proof {
        assert((hi as int + 1) * (hi as int + 1) > x) by (nonlinear_arith)
            requires
                hi == u64::MAX,
                x <= u128::MAX,
        ;
    }
    while lo < hi
        invariant
            lo <= hi,
            lo as int * lo as int <= x,
            x < (hi as int + 1) * (hi as int + 1),
        decreases hi - lo,
    {
        let step: u64 = (hi - lo) / 2 + 1;
        let mid: u64 = lo + step;
        proof {
            assert(mid as int * mid as int <= u128::MAX) by (nonlinear_arith)
                requires
                    mid <= u64::MAX,
            ;
        }
        let sq: u128 = (mid as u128) * (mid as u128);
        if sq <= x {
            lo = mid;
        } else {
            hi = mid - 1;
        }
    }
    proof {
        lemma_floor_sqrt_of(lo as nat, x as nat);
    }
    lo
}

/// The two scaled distances of a scored vector, and the scale they are on.
/// The similarity of the vector to centroid `j` is the exact ratio
/// `scale / (scale + dist_j)`, which is `1 / (1 + d)` for the real
/// distance `d`.
pub struct Confidence {
    /// The shared scale `den * 1000`.
    pub scale: u64,
    /// Scaled distance to centroid 0.
    pub dist_a: u64,
    /// Scaled distance to centroid 1.
    pub dist_b: u64,
}

proof fn lemma_term_bound(a: int, b: int, ca: int, cb: int)
    by (nonlinear_arith)
    requires
        0 <= a <= ca,
        0 <= b <= cb,
        ca >= 1,
        cb >= 1,
    ensures
        (a - b) * (a - b) <= ca * ca + cb * cb,
{
}

/// One squared difference, computed exactly in the wide word.
fn sq_term(n: u64, c: u64, den: u64) -> (r: u128)
    requires
        n <= NUM_CAP,
        c <= CENTROID_CAP,
        den <= COUNT_CAP,
    ensures
        r == ((n * 1000 - c * den) * (n * 1000 - c * den)) as nat,
        r <= 0x10000000000000000000000000000,
{
    let a: u128 = (n as u128) * 1000;
    proof {
        assert(c as int * den as int <= 0x80000000 * 0x100000) by (nonlinear_arith)
            requires
                c <= 0x80000000u64,
                den <= 0x100000u64,
        ;
    }
    let b: u128 = (c as u128) * (den as u128);
    proof {
        lemma_term_bound(a as int, b as int, 0x4E200000000000, 0x8000000000000);
        assert((a as int - b) * (a as int - b) == (n * 1000 - c * den) * (n * 1000 - c * den));
    }
    let d: u128 = if a >= b {
        a - b
    } else {
        b - a
    };
    proof {
        assert(d * d == (a as int - b) * (a as int - b)) by (nonlinear_arith)
            requires
                d == if a >= b {
                    a - b
                } else {
                    (b - a) as int
                },
        ;
        assert(d * d <= 0x10000000000000000000000000000) by (nonlinear_arith)
            requires
                d <= 0x4E200000000000,
        ;
    }
    d * d
}

/// The exact squared distance between the scaled vector and one centroid.
fn squared_distance(nums: &Vec<u64>, cent: &Vec<u64>, den: u64) -> (r: u128)
    requires
        nums@.len() == FEATURE_DIM,
        cent@.len() == FEATURE_DIM,
        den <= COUNT_CAP,
        forall|i: int| 0 <= i < nums@.len() ==> nums@[i] <= NUM_CAP,
        forall|i: int| 0 <= i < cent@.len() ==> cent@[i] <= CENTROID_CAP,
    ensures
        r == sq_diff_sum(nums@, cent@, den as nat),
{
    let mut sum: u128 = 0;
    let mut i: usize = 0;
    while i < FEATURE_DIM
        invariant
            nums@.len() == FEATURE_DIM,
            cent@.len() == FEATURE_DIM,
            den <= COUNT_CAP,
            forall|k: int| 0 <= k < nums@.len() ==> nums@[k] <= NUM_CAP,
            forall|k: int| 0 <= k < cent@.len() ==> cent@[k] <= CENTROID_CAP,
            i <= FEATURE_DIM,
            sum == sq_diff_sum(nums@.take(i as int), cent@.take(i as int), den as nat),
            sum <= i * 0x10000000000000000000000000000,
        decreases FEATURE_DIM - i,
    {
        let t = sq_term(nums[i], cent[i], den);
        proof {
            assert(nums@.take(i + 1 as int).drop_last() =~= nums@.take(i as int));
            assert(cent@.take(i + 1 as int).drop_last() =~= cent@.take(i as int));
            assert((i + 1) * 0x10000000000000000000000000000 == i
                * 0x10000000000000000000000000000 + 0x10000000000000000000000000000)
                by (nonlinear_arith);
            assert(i * 0x10000000000000000000000000000 <= 14 * 0x10000000000000000000000000000)
                by (nonlinear_arith)
                requires
                    0 <= i <= 14,
            ;
        }
        sum = sum + t;
        i = i + 1;
    }
    proof {
        assert(nums@.take(FEATURE_DIM as int) =~= nums@);
        assert(cent@.take(FEATURE_DIM as int) =~= cent@);
    }
    sum
}

/// Scores a feature vector against a model: the scaled distance to each of
/// the two centroids, from which the similarities and the confidence split
/// follow exactly. A malformed model is reported, never guessed around.
pub fn point_confidence(model: &ClusterModel, observation: &FeatureVector) -> (r: Result<
    Confidence,
    ModelError,
>)
    requires
        observation.wf(),
    ensures
        r is Ok <==> model.wf(),
        (match r {
            Ok(c) => {
                &&& c.scale == observation.den * 1000
                &&& c.dist_a == scaled_distance(
                    observation.nums@,
                    model.centroid_a@,
                    observation.den as nat,
                )
                &&& c.dist_b == scaled_distance(
                    observation.nums@,
                    model.centroid_b@,
                    observation.den as nat,
                )
                &&& c.scale >= 1000
            },
            Err(ModelError::WrongDimension) => model.centroid_a@.len() != FEATURE_DIM
                || model.centroid_b@.len() != FEATURE_DIM,
            Err(ModelError::BadClusterIndex) => model.ai_cluster_index > 1,
            Err(ModelError::CentroidOutOfRange) => exists|i: int|
                (0 <= i < model.centroid_a@.len() && model.centroid_a@[i] > CENTROID_CAP) || (0 <= i
                    < model.centroid_b@.len() && model.centroid_b@[i] > CENTROID_CAP),
        }),
{
    if model.centroid_a.len() != FEATURE_DIM || model.centroid_b.len() != FEATURE_DIM {
        return Err(ModelError::WrongDimension);
    }
    if model.ai_cluster_index > 1 {
        return Err(ModelError::BadClusterIndex);
    }
    let mut i: usize = 0;
    while i < FEATURE_DIM
        invariant
            model.centroid_a@.len() == FEATURE_DIM,
            model.centroid_b@.len() == FEATURE_DIM,
            i <= FEATURE_DIM,
            forall|k: int| 0 <= k < i ==> model.centroid_a@[k] <= CENTROID_CAP,
            forall|k: int| 0 <= k < i ==> model.centroid_b@[k] <= CENTROID_CAP,
        decreases FEATURE_DIM - i,
    {
        if model.centroid_a[i] > CENTROID_CAP || model.centroid_b[i] > CENTROID_CAP {
            return Err(ModelError::CentroidOutOfRange);
        }
        i = i + 1;
    }
    let sq_a = squared_distance(&observation.nums, &model.centroid_a, observation.den);
    let sq_b = squared_distance(&observation.nums, &model.centroid_b, observation.den);
    let dist_a = isqrt(sq_a);
    let dist_b = isqrt(sq_b);
    let scale: u64 = observation.den * 1000;
    Ok(Confidence { scale, dist_a, dist_b })
}

/// The AI-side share of the normalized similarity mass, in hundred
/// millionths (the whole mass is 100,000,000, read as a percentage scaled
/// by a million). With similarities `scale / (scale + dist)`, the
/// normalized share of the AI cluster works out to the exact ratio
/// `(scale + dist_other) / (2 * scale + dist_ai + dist_other)`.
pub open spec fn chance_ai_share(scale: nat, dist_ai: nat, dist_other: nat) -> nat {
    (100000000 * (scale + dist_other)) / (2 * scale + dist_ai + dist_other)
}

/// The share never exceeds the whole mass.
pub proof fn lemma_chance_share_le_whole(scale: nat, dist_ai: nat, dist_other: nat)
    requires
        scale >= 1,
    ensures
        chance_ai_share(scale, dist_ai, dist_other) <= 100000000,
{
    let num = 100000000 * (scale + dist_other);
    let den = 2 * scale + dist_ai + dist_other;
    assert(num <= 100000000 * den) by (nonlinear_arith)
        requires
            scale >= 1,
            dist_ai >= 0,
            dist_other >= 0,
            num == 100000000 * (scale + dist_other),
            den == 2 * scale + dist_ai + dist_other,
    ;
    lemma_div_is_ordered(num as int, (100000000 * den) as int, den as int);
    lemma_div_multiples_vanish(100000000, den as int);
}

/// The share is monotone in the normalized distances: a vector that is no
/// farther from the AI-side centroid and no nearer to the other one, each
/// distance read against its own scale, never gets a smaller AI share.
pub proof fn lemma_chance_share_monotone(s1: nat, a1: nat, o1: nat, s2: nat, a2: nat, o2: nat)
    requires
        s1 >= 1,
        s2 >= 1,
        a1 * s2 <= a2 * s1,
        o1 * s2 >= o2 * s1,
    ensures
        chance_ai_share(s1, a1, o1) >= chance_ai_share(s2, a2, o2),
{
    let num1 = (100000000 * (s1 + o1)) as int;
    let den1 = (2 * s1 + a1 + o1) as int;
    let num2 = (100000000 * (s2 + o2)) as int;
    let den2 = (2 * s2 + a2 + o2) as int;
    assert(o1 * a2 >= o2 * a1) by (nonlinear_arith)
        requires
            s1 >= 1,
            s2 >= 1,
            a1 * s2 <= a2 * s1,
            o1 * s2 >= o2 * s1,
    ;
    assert(num1 * den2 >= num2 * den1) by (nonlinear_arith)
        requires
            a1 * s2 <= a2 * s1,
            o1 * s2 >= o2 * s1,
            o1 * a2 >= o2 * a1,
            num1 == 100000000 * (s1 + o1),
            den1 == 2 * s1 + a1 + o1,
            num2 == 100000000 * (s2 + o2),
            den2 == 2 * s2 + a2 + o2,
    ;
    let q2 = num2 / den2;
    lemma_fundamental_div_mod(num2, den2);
    assert(num2 >= den2 * q2);
    assert(num1 * den2 >= (q2 * den1) * den2) by (nonlinear_arith)
        requires
            num1 * den2 >= num2 * den1,
            num2 >= den2 * q2,
            den1 >= 2,
            den2 >= 2,
    ;
    assert(num1 >= q2 * den1) by (nonlinear_arith)
        requires
            num1 * den2 >= (q2 * den1) * den2,
            den2 >= 2,
    ;
    lemma_div_is_ordered(q2 * den1, num1, den1);
    lemma_div_multiples_vanish(q2, den1);
}

/// At equal distances the mass splits evenly: each cluster gets exactly
/// half.
pub proof fn lemma_equidistant_even_split(scale: nat, dist: nat)
    requires
        scale >= 1,
    ensures
        chance_ai_share(scale, dist, dist) == 50000000,
{
    let k = (scale + dist) as int;
    assert(100000000 * (scale + dist) == 50000000 * (2 * k)) by (nonlinear_arith)
        requires
            k == scale + dist,
    ;
    assert(2 * scale + dist + dist == 2 * k);
    lemma_div_multiples_vanish(50000000, 2 * k);
}

} // verus!
