//! The prediction orchestrator: extractor, assembler and scorer composed
//! into one call.

use vstd::prelude::*;
use crate::features::{feature_den, feature_nums, to_vector};
use crate::metrics::{metrics_value, TextMetricFactory, TextMetrics};
use crate::model::{
    chance_ai_share, lemma_chance_share_le_whole, lemma_equidistant_even_split, scaled_distance,
    ClusterModel, ModelError,
};

verus! {

/// The whole confidence mass: 100 percent, scaled by a million. A
/// `chance_ai` of half this value reads as 50%.
pub const CHANCE_WHOLE: u64 = 100000000;

/// The scaled distance of a record's feature vector to the centroid the
/// model marks as AI-like.
pub open spec fn ai_distance(m: TextMetrics, model: ClusterModel) -> nat {
    if model.ai_cluster_index == 0 {
        scaled_distance(feature_nums(m), model.centroid_a@, feature_den(m))
    } else {
        scaled_distance(feature_nums(m), model.centroid_b@, feature_den(m))
    }
}

/// The scaled distance of a record's feature vector to the other centroid.
pub open spec fn human_distance(m: TextMetrics, model: ClusterModel) -> nat {
    if model.ai_cluster_index == 0 {
        scaled_distance(feature_nums(m), model.centroid_b@, feature_den(m))
    } else {
        scaled_distance(feature_nums(m), model.centroid_a@, feature_den(m))
    }
}

/// The AI-side confidence of a record against a model, in units of
/// [`CHANCE_WHOLE`]: the normalized similarity of the feature vector to
/// the AI-side centroid.
pub open spec fn chance_ai_of(m: TextMetrics, model: ClusterModel) -> nat {
    chance_ai_share(feature_den(m) * 1000, ai_distance(m, model), human_distance(m, model))
}

/// The AI-side confidence never exceeds the whole mass, so the complement
/// that makes the pair sum to exactly 100% is well-defined.
pub proof fn lemma_chance_ai_in_range(m: TextMetrics, model: ClusterModel)
    ensures
        chance_ai_of(m, model) <= CHANCE_WHOLE,
{
    lemma_chance_share_le_whole(
        feature_den(m) * 1000,
        ai_distance(m, model),
        human_distance(m, model),
    );
}

/// When the two centroids are at equal distance from the record's feature
/// vector, the confidence splits exactly evenly.
pub proof fn lemma_equidistant_prediction(m: TextMetrics, model: ClusterModel)
    requires
        scaled_distance(feature_nums(m), model.centroid_a@, feature_den(m)) == scaled_distance(
            feature_nums(m),
            model.centroid_b@,
            feature_den(m),
        ),
    ensures
        chance_ai_of(m, model) == CHANCE_WHOLE / 2,
{
    lemma_equidistant_even_split(feature_den(m) * 1000, ai_distance(m, model));
}

/// A record whose feature vector sits no farther from the AI-side centroid
/// and no nearer to the human-side one — each distance read against the
/// record's own scale — scores at least as AI-like. This is the monotonic
/// sanity behind comparing a pattern-saturated text with an empty one.
pub proof fn lemma_closer_to_ai_scores_higher(
    m1: TextMetrics,
    m2: TextMetrics,
    model: ClusterModel,
)
    requires
        ai_distance(m1, model) * feature_den(m2) <= ai_distance(m2, model) * feature_den(m1),
        human_distance(m1, model) * feature_den(m2) >= human_distance(m2, model) * feature_den(m1),
    ensures
        chance_ai_of(m1, model) >= chance_ai_of(m2, model),
{
    let d1 = feature_den(m1);
    let d2 = feature_den(m2);
    let a1 = ai_distance(m1, model);
    let a2 = ai_distance(m2, model);
    let o1 = human_distance(m1, model);
    let o2 = human_distance(m2, model);
    assert(a1 * (d2 * 1000) <= a2 * (d1 * 1000)) by (nonlinear_arith)
        requires
            a1 * d2 <= a2 * d1,
    ;
    assert(o1 * (d2 * 1000) >= o2 * (d1 * 1000)) by (nonlinear_arith)
        requires
            o1 * d2 >= o2 * d1,
    ;
    crate::model::lemma_chance_share_monotone(d1 * 1000, a1, o1, d2 * 1000, a2, o2);
}

/// A scored text: the confidence split and the metrics it came from.
/// `chance_ai + chance_human == CHANCE_WHOLE` always.
#[derive(Clone, Copy, Debug, PartialEq, Eq, Structural)]
pub struct Prediction {
    /// AI-side confidence, in units of [`CHANCE_WHOLE`].
    pub chance_ai: u64,
    /// Human-side confidence, the exact complement.
    pub chance_human: u64,
    /// The metrics record the split was computed from.
    pub metrics: TextMetrics,
}

/// Scores `text` against `model`: extracts the metrics, assembles the
/// weighted feature vector, and converts the two centroid distances into
/// a confidence split. A malformed model is the one failure.
pub fn predict(text: &str, factory: &TextMetricFactory, model: &ClusterModel) -> (r: Result<
    Prediction,
    ModelError,
>)
    requires
        factory.wf(),
    ensures
        r is Ok <==> model.wf(),
        (match r {
            Ok(p) => {
                &&& p.metrics == metrics_value(text@)
                &&& p.chance_ai == chance_ai_of(metrics_value(text@), *model)
                &&& p.chance_ai + p.chance_human == CHANCE_WHOLE
            },
            Err(_) => !model.wf(),
        }),
{
    let m = factory.calculate(text);
    let v = to_vector(&m);
    proof {
        assert(v.nums@ =~= feature_nums(m));
    }
    match crate::model::point_confidence(model, &v) {
        Err(e) => Err(e),
        Ok(c) => {
            let dist_ai: u64;
            let dist_other: u64;
            if model.ai_cluster_index == 0 {
                dist_ai = c.dist_a;
                dist_other = c.dist_b;
            } else {
                dist_ai = c.dist_b;
                dist_other = c.dist_a;
            }
            proof {
                assert(100000000 * (c.scale as int + dist_other as int) <= u128::MAX)
                    by (nonlinear_arith)
                    requires
                        c.scale <= u64::MAX,
                        dist_other <= u64::MAX,
                ;
            }
            let num: u128 = 100000000u128 * (c.scale as u128 + dist_other as u128);
            let den: u128 = 2 * (c.scale as u128) + dist_ai as u128 + dist_other as u128;
            proof {
                lemma_chance_share_le_whole(
                    c.scale as nat,
                    dist_ai as nat,
                    dist_other as nat,
                );
            }
            let chance_ai: u64 = (num / den) as u64;
            let chance_human: u64 = CHANCE_WHOLE - chance_ai;
            Ok(Prediction { chance_ai, chance_human, metrics: m })
        },
    }
}

} // verus!
