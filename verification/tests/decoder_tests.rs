use delay_decode::{AverageDelayDecoder, DelayDecoder, ThresholdDelayDecoder};

#[test]
fn threshold_decodes_each_delay() {
    let mut decoder = ThresholdDelayDecoder::new(4);
    decoder.push_duration(3);
    decoder.push_duration(4);
    decoder.push_duration(10);
    let bits = decoder.close();
    assert_eq!(bits.len(), 3);
    assert!(!bits.get(0));
    assert!(bits.get(1));
    assert!(bits.get(2));
}

#[test]
fn threshold_close_without_pushes_is_empty() {
    let decoder = ThresholdDelayDecoder::new(5);
    let bits = decoder.close();
    assert_eq!(bits.len(), 0);
}

#[test]
fn average_close_with_no_delay_is_empty() {
    let decoder = AverageDelayDecoder::new();
    let bits = decoder.close();
    assert_eq!(bits.len(), 0);
}

#[test]
fn average_close_with_one_delay_is_empty() {
    let mut decoder = AverageDelayDecoder::new();
    decoder.push_duration(42);
    let bits = decoder.close();
    assert_eq!(bits.len(), 0);
}

#[test]
fn average_compares_each_delay_to_the_mean() {
    let mut decoder = AverageDelayDecoder::new();
    decoder.push_duration(2);
    decoder.push_duration(4);
    // mean is 3
    let bits = decoder.close();
    assert_eq!(bits.len(), 2);
    assert!(!bits.get(0));
    assert!(bits.get(1));
}

#[test]
fn average_keeps_push_order() {
    let mut decoder = AverageDelayDecoder::new();
    decoder.push_duration(9);
    decoder.push_duration(1);
    decoder.push_duration(2);
    // sum 12, mean 4: only the first delay reaches it
    let bits = decoder.close();
    assert_eq!(bits.len(), 3);
    assert!(bits.get(0));
    assert!(!bits.get(1));
    assert!(!bits.get(2));
}

#[test]
fn average_mean_truncates() {
    let mut decoder = AverageDelayDecoder::new();
    decoder.push_duration(1);
    decoder.push_duration(2);
    // sum 3 over 2 delays truncates to mean 1, so both reach it
    let bits = decoder.close();
    assert_eq!(bits.len(), 2);
    assert!(bits.get(0));
    assert!(bits.get(1));
}

#[test]
fn average_all_equal_delays() {
    let mut decoder = AverageDelayDecoder::new();
    decoder.push_duration(7);
    decoder.push_duration(7);
    decoder.push_duration(7);
    let bits = decoder.close();
    assert_eq!(bits.len(), 3);
    assert!(bits.get(0));
    assert!(bits.get(1));
    assert!(bits.get(2));
}
