use sonai::{
    features_from_metrics, point_confidence, predict, to_vector, ClusterModel, ModelError,
    TextMetricFactory, TextMetrics,
};

const WHOLE: u64 = 100_000_000;

fn factory() -> TextMetricFactory {
    TextMetricFactory::new().expect("the built-in dictionaries compile")
}

fn metrics_with(sentences: usize, emoji: usize, buzz: usize, dashes: usize) -> TextMetrics {
    TextMetrics {
        sentence_count: sentences,
        word_count: 1,
        emoji_count: emoji,
        buzzword_excess: buzz,
        not_just_count: 0,
        html_escape_count: 0,
        devlog_cadence_count: 0,
        backstory_count: 0,
        incorrect_perspective_count: 0,
        hedging_count: 0,
        irregular_ellipsis_count: 0,
        irregular_quotation_count: 0,
        irregular_dash_count: dashes,
        irregular_markdown_count: 0,
        label_count: 0,
        hashtag_count: 0,
    }
}

#[test]
fn vector_weights_are_exact() {
    let m = metrics_with(2, 3, 4, 5);
    let v = to_vector(&m);
    assert_eq!(v.den, 2);
    assert_eq!(v.nums.len(), 14);
    // Rate numerators stay as they are; counts are scaled by the
    // denominator so every component shares it.
    assert_eq!(v.nums[0], 30); // emoji rate: 5 per sentence, weighted x2
    assert_eq!(v.nums[1], 80); // buzzword rate: 2 per sentence, weighted x10
    assert_eq!(v.nums[2], 200); // dashes, weighted x20
    for i in 3..14 {
        assert_eq!(v.nums[i], 0);
    }
}

#[test]
fn zero_sentence_records_still_get_a_denominator() {
    let m = metrics_with(0, 0, 0, 0);
    let v = to_vector(&m);
    assert_eq!(v.den, 1);
}

#[test]
fn batch_vectors_match_single_calls() {
    let a = metrics_with(1, 1, 0, 0);
    let b = metrics_with(3, 0, 2, 1);
    let batch = features_from_metrics(&vec![a, b]);
    assert_eq!(batch.len(), 2);
    assert_eq!(batch[0].den, to_vector(&a).den);
    assert_eq!(batch[0].nums, to_vector(&a).nums);
    assert_eq!(batch[1].nums, to_vector(&b).nums);
}

#[test]
fn model_validation_reports_each_violation() {
    let good = vec![0u64; 14];
    assert!(ClusterModel::new(good.clone(), good.clone(), 0).is_ok());
    assert!(ClusterModel::new(good.clone(), good.clone(), 1).is_ok());
    assert_eq!(
        ClusterModel::new(vec![0u64; 13], good.clone(), 0).err(),
        Some(ModelError::WrongDimension)
    );
    assert_eq!(
        ClusterModel::new(good.clone(), vec![0u64; 15], 0).err(),
        Some(ModelError::WrongDimension)
    );
    assert_eq!(
        ClusterModel::new(good.clone(), good.clone(), 2).err(),
        Some(ModelError::BadClusterIndex)
    );
    let mut too_big = vec![0u64; 14];
    too_big[3] = 0x80000001;
    assert_eq!(
        ClusterModel::new(too_big, good.clone(), 0).err(),
        Some(ModelError::CentroidOutOfRange)
    );
}

#[test]
fn distances_are_exact_integer_roots() {
    let f = factory();
    let m = f.calculate("");
    let v = to_vector(&m);
    // Centroid components are thousandths: 3000 is the value 3.0; on the
    // shared scale den * 1000 the difference is 3000 and its square 9e6.
    let mut cb = vec![0u64; 14];
    cb[0] = 3000;
    let model = ClusterModel::new(vec![0u64; 14], cb, 0).unwrap();
    let c = point_confidence(&model, &v).unwrap();
    assert_eq!(c.scale, 1000);
    assert_eq!(c.dist_a, 0);
    assert_eq!(c.dist_b, 3000);
}

#[test]
fn rejected_model_is_reported_at_score_time() {
    let f = factory();
    let v = to_vector(&f.calculate("whatever"));
    let model = ClusterModel {
        centroid_a: vec![0u64; 13],
        centroid_b: vec![0u64; 14],
        ai_cluster_index: 0,
    };
    assert_eq!(point_confidence(&model, &v).err(), Some(ModelError::WrongDimension));
}

#[test]
fn confidence_split_sums_to_the_whole() {
    let f = factory();
    let mut cb = vec![0u64; 14];
    cb[0] = 7000;
    cb[1] = 2500;
    let model = ClusterModel::new(vec![0u64; 14], cb, 1).unwrap();
    for text in ["", "plain words", "it's not just a modern app… 👍 #dev", "day #1: shipped"] {
        let p = predict(text, &f, &model).unwrap();
        assert_eq!(p.chance_ai + p.chance_human, WHOLE);
        assert!(p.chance_ai <= WHOLE);
    }
}

#[test]
fn equidistant_centroids_split_evenly() {
    let f = factory();
    let centroid = vec![500u64; 14];
    let model = ClusterModel::new(centroid.clone(), centroid, 0).unwrap();
    let p = predict("some plain text", &f, &model).unwrap();
    assert_eq!(p.chance_ai, WHOLE / 2);
    assert_eq!(p.chance_human, WHOLE / 2);
}

#[test]
fn exact_split_for_known_distances() {
    let f = factory();
    // Empty text gives the zero vector with denominator 1. Cluster 0 sits
    // on it, cluster 1 is 3.0 away on the first axis, so on scale 1000 the
    // AI share is 100e6 * (1000 + 3000) / (2000 + 0 + 3000).
    let mut cb = vec![0u64; 14];
    cb[0] = 3000;
    let model = ClusterModel::new(vec![0u64; 14], cb, 0).unwrap();
    let p = predict("", &f, &model).unwrap();
    assert_eq!(p.chance_ai, 80_000_000);
    assert_eq!(p.chance_human, 20_000_000);
}

#[test]
fn predict_fails_outright_on_a_malformed_model() {
    let f = factory();
    let model = ClusterModel {
        centroid_a: vec![0u64; 14],
        centroid_b: vec![0u64; 14],
        ai_cluster_index: 7,
    };
    assert_eq!(predict("text", &f, &model).err(), Some(ModelError::BadClusterIndex));
}

#[test]
fn saturated_text_scores_closer_to_the_ai_cluster() {
    let f = factory();
    // An AI-side centroid with weight on the emoji and buzzword rates and
    // a human-side centroid at the origin.
    let mut ai_centroid = vec![0u64; 14];
    ai_centroid[0] = 20_000;
    ai_centroid[1] = 40_000;
    ai_centroid[5] = 2_000;
    let model = ClusterModel::new(vec![0u64; 14], ai_centroid, 1).unwrap();
    let saturated = "It's not just a modern, intuitive, responsive app — it delivers \
                     engagement across all devices! 👍 🚀 ✨ Excited to simulate digital \
                     wellness… #dev #launch";
    let p_sat = predict(saturated, &f, &model).unwrap();
    let p_empty = predict("", &f, &model).unwrap();
    assert!(p_sat.chance_ai > p_empty.chance_ai);
}

#[test]
fn prediction_carries_its_metrics() {
    let f = factory();
    let model = ClusterModel::new(vec![0u64; 14], vec![1000u64; 14], 0).unwrap();
    let text = "it's not just a demo";
    let p = predict(text, &f, &model).unwrap();
    assert_eq!(p.metrics, f.calculate(text));
}
