use siz::fuzzy::{levenshtein_distance, similarity_ratio_parts};

fn ratio(a: &str, b: &str) -> f64 {
    let r = similarity_ratio_parts(a, b);
    r.num as f64 / r.den as f64
}

#[test]
fn test_levenshtein_distance_same() {
    assert_eq!(levenshtein_distance("xyz", "xyz"), 0);
}

#[test]
fn test_levenshtein_distance_zero_length_left() {
    assert_eq!(levenshtein_distance("", "xyz"), 3);
}

#[test]
fn test_levenshtein_distance_zero_length_right() {
    assert_eq!(levenshtein_distance("xyz", ""), 3);
}

#[test]
fn test_levenshtein_distance_insertion() {
    assert_eq!(levenshtein_distance("xyz", "xyza"), 1);
}

#[test]
fn test_levenshtein_distance_deletion() {
    assert_eq!(levenshtein_distance("xyz", "xy"), 1);
}

#[test]
fn test_levenshtein_distance_substitution() {
    assert_eq!(levenshtein_distance("xyz", "xzz"), 1);
}

#[test]
fn test_levenshtein_distance_sitting_kitten() {
    assert_eq!(levenshtein_distance("sitting", "kitten"), 3);
}

#[test]
fn test_levenshtein_distance_unicode() {
    // measured over scalar values, not bytes
    assert_eq!(levenshtein_distance("caf\u{e9}", "cafe"), 1);
}

#[test]
fn test_levenshtein_distance_symmetry() {
    assert_eq!(
        levenshtein_distance("alphabet", "alphabets"),
        levenshtein_distance("alphabets", "alphabet")
    );
}

#[test]
fn test_similarity_ratio_same() {
    assert_eq!(ratio("xyz", "xyz"), 1.0);
}

#[test]
fn test_similarity_ratio_zero_length_left() {
    assert_eq!(ratio("", "xyz"), 0.0);
}

#[test]
fn test_similarity_ratio_zero_length_right() {
    assert_eq!(ratio("xyz", ""), 0.0);
}

#[test]
fn test_similarity_ratio_insertion() {
    assert_eq!(ratio("xyz", "xyza"), 0.8571428571428571);
}

#[test]
fn test_similarity_ratio_insertion_reversed() {
    assert_eq!(ratio("xyza", "xyz"), 0.8571428571428571);
}

#[test]
fn test_similarity_ratio_deletion() {
    assert_eq!(ratio("xyz", "xy"), 0.8);
}

#[test]
fn test_similarity_ratio_deletion_reversed() {
    assert_eq!(ratio("xy", "xyz"), 0.8);
}

#[test]
fn test_similarity_ratio_substitution() {
    assert_eq!(ratio("xyz", "xzz"), 0.8333333333333334);
}

#[test]
fn test_similarity_ratio_substitution_reversed() {
    assert_eq!(ratio("xzz", "xyz"), 0.8333333333333334);
}

#[test]
fn test_similarity_ratio_sitting_kitten() {
    assert_eq!(ratio("sitting", "kitten"), 0.7692307692307693);
}

#[test]
fn test_similarity_ratio_sitting_kitten_reversed() {
    assert_eq!(ratio("kitten", "sitting"), 0.7692307692307693);
}

#[test]
fn test_similarity_ratio_equal_parts_for_equal_inputs() {
    // equal inputs short-circuit to the exact unit fraction
    let r = similarity_ratio_parts("rust", "rust");
    assert_eq!(r.num, 1);
    assert_eq!(r.den, 1);
}

#[test]
fn test_similarity_ratio_parts_exact_values() {
    // byte-length denominator, distance-adjusted numerator
    let r = similarity_ratio_parts("sitting", "kitten");
    assert_eq!(r.num, 10);
    assert_eq!(r.den, 13);
}
