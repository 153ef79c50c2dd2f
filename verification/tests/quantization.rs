use simse_core::distance::DistanceMetric;
use simse_core::quantization::{BinaryQuantizer, Quantization};

#[test]
fn default_metric_is_cosine() {
    assert_eq!(DistanceMetric::default(), DistanceMetric::Cosine);
}

#[test]
fn metric_names() {
    assert_eq!(DistanceMetric::Cosine.as_str(), "cosine");
    assert_eq!(DistanceMetric::DotProduct.as_str(), "dot_product");
}

#[test]
fn quantization_default_is_none() {
    assert_eq!(Quantization::default(), Quantization::Unquantized);
}

#[test]
fn binary_hamming_identical() {
    let a = vec![0b1010_1010u64, 0b1111_0000];
    let dist = BinaryQuantizer::hamming_distance(&a, &a);
    assert_eq!(dist, 0);
}

#[test]
fn binary_hamming_known_distance() {
    let a = vec![0b0000_0000u64];
    let b = vec![0b0000_0111u64];
    assert_eq!(BinaryQuantizer::hamming_distance(&a, &b), 3);
}

#[test]
fn binary_hamming_all_differ() {
    let a = vec![0u64];
    let b = vec![u64::MAX];
    assert_eq!(BinaryQuantizer::hamming_distance(&a, &b), 64);
}

#[test]
fn binary_hamming_different_lengths() {
    let a = vec![0u64];
    let b = vec![0u64, 0xFF];
    let dist = BinaryQuantizer::hamming_distance(&a, &b);
    assert_eq!(dist, 8, "extra word's set bits should count");
}

#[test]
fn binary_hamming_empty() {
    assert_eq!(BinaryQuantizer::hamming_distance(&[], &[]), 0);
}

#[test]
fn binary_hamming_one_empty() {
    let a = vec![0b1111u64];
    assert_eq!(BinaryQuantizer::hamming_distance(&a, &[]), 4);
    assert_eq!(BinaryQuantizer::hamming_distance(&[], &a), 4);
}

#[test]
fn hamming_is_symmetric_on_example() {
    let a = vec![0xF0F0u64, 7];
    let b = vec![0x0F0Fu64];
    assert_eq!(
        BinaryQuantizer::hamming_distance(&a, &b),
        BinaryQuantizer::hamming_distance(&b, &a)
    );
    assert_eq!(BinaryQuantizer::hamming_distance(&a, &b), 16 + 3);
}

#[test]
fn pack_sign_bits_known_pattern() {
    // positive, negative, positive, positive -> bits 0, 2, 3
    let packed = BinaryQuantizer::pack_sign_bits(&[true, false, true, true]);
    assert_eq!(packed, vec![0b1101u64]);
}

#[test]
fn pack_sign_bits_spans_words() {
    let mut flags = vec![false; 65];
    flags[64] = true;
    flags[0] = true;
    let packed = BinaryQuantizer::pack_sign_bits(&flags);
    assert_eq!(packed, vec![1u64, 1u64]);
    assert!(BinaryQuantizer::pack_sign_bits(&[]).is_empty());
    assert_eq!(BinaryQuantizer::pack_sign_bits(&vec![true; 64]), vec![u64::MAX]);
}
