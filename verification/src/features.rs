//! The feature vector assembler: a fixed-length, fixed-order, fixed-weight
//! mapping from a metrics record to a numeric vector.
//!
//! The vector is exact rational arithmetic in disguise: every component is
//! `nums[i] / den`, where `den` is the sentence count. The two rate
//! components keep their numerators as they are; the absolute counts are
//! multiplied by `den` so that all components share one denominator. Each
//! count is clamped to [`COUNT_CAP`] first, which keeps every later product
//! inside the machine word; the cap is far beyond any text a devlog holds.

use vstd::prelude::*;
use crate::metrics::TextMetrics;

verus! {

/// Upper clamp applied to every count before weighting.
pub const COUNT_CAP: u64 = 0x100000;

/// Number of features of the vector; part of the model contract.
pub const FEATURE_DIM: usize = 14;

/// Largest possible weighted numerator: the largest weight times the
/// clamped count times the clamped denominator.
pub const NUM_CAP: u64 = 0x140000000000;

/// A count clamped to [`COUNT_CAP`].
pub open spec fn clamp_cap(n: nat) -> nat {
    if n > COUNT_CAP {
        COUNT_CAP as nat
    } else {
        n
    }
}

/// The common denominator of a record's features: its sentence count,
/// clamped to at least 1 and at most [`COUNT_CAP`].
pub open spec fn feature_den(m: TextMetrics) -> nat {
    let sc = clamp_cap(m.sentence_count as nat);
    if sc == 0 {
        1
    } else {
        sc
    }
}

/// The weighted numerator of feature `i` of a record. The order and the
/// weights are part of the model contract: emoji rate (x2 on a rate that is
/// 5 emoji per sentence), buzzword rate (x10 on a rate that is 2 hits per
/// sentence), dashes x20, quotations x5, labels, ellipses, HTML escapes x5,
/// not-just x5, devlog cadence, markdown, hashtags, hedging, perspective,
/// backstory.
pub open spec fn feature_num(m: TextMetrics, i: int) -> nat {
    let den = feature_den(m);
    if i == 0 {
        10 * clamp_cap(m.emoji_count as nat)
    } else if i == 1 {
        20 * clamp_cap(m.buzzword_excess as nat)
    } else if i == 2 {
        20 * clamp_cap(m.irregular_dash_count as nat) * den
    } else if i == 3 {
        5 * clamp_cap(m.irregular_quotation_count as nat) * den
    } else if i == 4 {
        clamp_cap(m.label_count as nat) * den
    } else if i == 5 {
        clamp_cap(m.irregular_ellipsis_count as nat) * den
    } else if i == 6 {
        5 * clamp_cap(m.html_escape_count as nat) * den
    } else if i == 7 {
        5 * clamp_cap(m.not_just_count as nat) * den
    } else if i == 8 {
        clamp_cap(m.devlog_cadence_count as nat) * den
    } else if i == 9 {
        clamp_cap(m.irregular_markdown_count as nat) * den
    } else if i == 10 {
        clamp_cap(m.hashtag_count as nat) * den
    } else if i == 11 {
        clamp_cap(m.hedging_count as nat) * den
    } else if i == 12 {
        clamp_cap(m.incorrect_perspective_count as nat) * den
    } else {
        clamp_cap(m.backstory_count as nat) * den
    }
}

/// The full numerator sequence of a record, in feature order.
pub open spec fn feature_nums(m: TextMetrics) -> Seq<u64> {
    Seq::new(FEATURE_DIM as nat, |i: int| feature_num(m, i) as u64)
}

/// A weighted feature vector with one shared denominator: component `i`
/// has the exact value `nums[i] / den`.
pub struct FeatureVector {
    /// Weighted numerators, in feature order.
    pub nums: Vec<u64>,
    /// The shared denominator, the clamped sentence count.
    pub den: u64,
}

impl FeatureVector {
    /// Shape and range: full dimension, positive bounded denominator,
    /// bounded numerators.
    pub open spec fn wf(&self) -> bool {
        &&& self.nums@.len() == FEATURE_DIM
        &&& 1 <= self.den <= COUNT_CAP
        &&& forall|i: int| 0 <= i < self.nums@.len() ==> self.nums@[i] <= NUM_CAP
    }
}

proof fn lemma_mul_bound(a: u64, b: u64, ca: u64, cb: u64)
    by (nonlinear_arith)
    requires
        a <= ca,
        b <= cb,
    ensures
        a as int * b as int <= ca as int * cb as int,
{
}

/// A count clamped to [`COUNT_CAP`], widened to the vector's word size.
fn clamp_count(n: usize) -> (r: u64)
    ensures
        r == clamp_cap(n as nat),
        r <= COUNT_CAP,
{
    if n > 0x100000 {
        COUNT_CAP
    } else {
        n as u64
    }
}

/// Assembles the weighted feature vector of one metrics record.
pub fn to_vector(m: &TextMetrics) -> (v: FeatureVector)
    ensures
        v.wf(),
        v.den == feature_den(*m),
        forall|i: int| 0 <= i < FEATURE_DIM ==> v.nums@[i] == feature_num(*m, i),
{
    let sc = clamp_count(m.sentence_count);
    let den: u64 = if sc == 0 {
        1
    } else {
        sc
    };

    let w_emoji: u64 = 10 * clamp_count(m.emoji_count);
    let w_buzz: u64 = 20 * clamp_count(m.buzzword_excess);
    let c_dash = 20 * clamp_count(m.irregular_dash_count);
    let c_quote = 5 * clamp_count(m.irregular_quotation_count);
    let c_label = clamp_count(m.label_count);
    let c_ellipsis = clamp_count(m.irregular_ellipsis_count);
    let c_html = 5 * clamp_count(m.html_escape_count);
    let c_not_just = 5 * clamp_count(m.not_just_count);
    let c_devlog = clamp_count(m.devlog_cadence_count);
    let c_markdown = clamp_count(m.irregular_markdown_count);
    let c_hashtag = clamp_count(m.hashtag_count);
    let c_hedging = clamp_count(m.hedging_count);
    let c_perspective = clamp_count(m.incorrect_perspective_count);
    let c_backstory = clamp_count(m.backstory_count);
    proof {
        lemma_mul_bound(c_dash, den, 0x1400000, 0x100000);
        lemma_mul_bound(c_quote, den, 0x500000, 0x100000);
        lemma_mul_bound(c_label, den, 0x100000, 0x100000);
        lemma_mul_bound(c_ellipsis, den, 0x100000, 0x100000);
        lemma_mul_bound(c_html, den, 0x500000, 0x100000);
        lemma_mul_bound(c_not_just, den, 0x500000, 0x100000);
        lemma_mul_bound(c_devlog, den, 0x100000, 0x100000);
        lemma_mul_bound(c_markdown, den, 0x100000, 0x100000);
        lemma_mul_bound(c_hashtag, den, 0x100000, 0x100000);
        lemma_mul_bound(c_hedging, den, 0x100000, 0x100000);
        lemma_mul_bound(c_perspective, den, 0x100000, 0x100000);
        lemma_mul_bound(c_backstory, den, 0x100000, 0x100000);
    }
    let mut nums: Vec<u64> = Vec::new();
    nums.push(w_emoji);
    nums.push(w_buzz);
    nums.push(c_dash * den);
    nums.push(c_quote * den);
    nums.push(c_label * den);
    nums.push(c_ellipsis * den);
    nums.push(c_html * den);
    nums.push(c_not_just * den);
    nums.push(c_devlog * den);
    nums.push(c_markdown * den);
    nums.push(c_hashtag * den);
    nums.push(c_hedging * den);
    nums.push(c_perspective * den);
    nums.push(c_backstory * den);
    FeatureVector { nums, den }
}

/// Assembles the feature vector of each record of a batch, in order.
pub fn features_from_metrics(data: &Vec<TextMetrics>) -> (r: Vec<FeatureVector>)
    ensures
        r@.len() == data@.len(),
        forall|k: int|
            0 <= k < data@.len() ==> {
                &&& (#[trigger] r@[k]).wf()
                &&& r@[k].den == feature_den(data@[k])
                &&& forall|i: int| 0 <= i < FEATURE_DIM ==> r@[k].nums@[i] == feature_num(
                    data@[k],
                    i,
                )
            },
{
    let mut out: Vec<FeatureVector> = Vec::new();
    let mut k: usize = 0;
    while k < data.len()
        invariant
            k <= data@.len(),
            out@.len() == k,
            forall|j: int|
                0 <= j < k ==> {
                    &&& (#[trigger] out@[j]).wf()
                    &&& out@[j].den == feature_den(data@[j])
                    &&& forall|i: int| 0 <= i < FEATURE_DIM ==> out@[j].nums@[i] == feature_num(
                        data@[j],
                        i,
                    )
                },
        decreases data@.len() - k,
    {
        let v = to_vector(&data[k]);
        out.push(v);
        k = k + 1;
    }
    out
}

} // verus!
