use delay_decode::{
    delay_session_store, AverageDelayDecoder, DelaySession, DelaySessionStore,
    ThresholdDelayDecoder,
};

fn deadline_of(store: &DelaySessionStore<ThresholdDelayDecoder>, key: u64) -> u64 {
    match store.sessions.get(&key) {
        Some(DelaySession::Open { timeout_instant, .. }) => *timeout_instant,
        _ => panic!("key {key} should have an open session"),
    }
}

#[test]
fn timeout_closes_with_one_decoded_delay() {
    let mut store = delay_session_store(10);
    store.push_signal(1, 0, ThresholdDelayDecoder::new(4));
    assert_eq!(deadline_of(&store, 1), 10);
    store.push_signal(1, 5, ThresholdDelayDecoder::new(4));
    // the accepted signal moved the deadline to 5 + 10
    assert_eq!(deadline_of(&store, 1), 15);
    assert!(store.fire_timeout(1));
    assert_eq!(store.results.len(), 1);
    assert_eq!(store.results[0].0, 1);
    let bits = &store.results[0].1;
    assert_eq!(bits.len(), 1);
    assert!(bits.get(0));
}

#[test]
fn end_to_end_scenario() {
    let mut store = delay_session_store(10);
    store.push_signal(7, 0, ThresholdDelayDecoder::new(4));
    store.push_signal(7, 3, ThresholdDelayDecoder::new(4));
    store.push_signal(7, 7, ThresholdDelayDecoder::new(4));
    // idle past 7 + 10 = 17: the timer fires
    assert!(store.fire_timeout(7));
    assert_eq!(store.results.len(), 1);
    assert_eq!(store.results[0].0, 7);
    let bits = &store.results[0].1;
    assert_eq!(bits.len(), 2);
    assert!(!bits.get(0)); // delay 3
    assert!(bits.get(1)); // delay 4
    assert!(!store.sessions.contains_key(&7));
}

#[test]
fn late_arrival_rolls_over_to_a_new_generation() {
    let mut store = delay_session_store(10);
    store.push_signal(2, 0, ThresholdDelayDecoder::new(4));
    store.push_signal(2, 10, ThresholdDelayDecoder::new(4));
    // the first window closed empty: the late signal contributed no delay
    assert_eq!(store.results.len(), 1);
    assert_eq!(store.results[0].0, 2);
    assert_eq!(store.results[0].1.len(), 0);
    // and the same signal seeded the next generation
    match store.sessions.get(&2) {
        Some(DelaySession::Open { last_signal_instant, timeout_instant, .. }) => {
            assert_eq!(*last_signal_instant, 10);
            assert_eq!(*timeout_instant, 20);
        }
        _ => panic!("the key should have a fresh open session"),
    }
    // the delay measured from the seed lands in the new window alone
    store.push_signal(2, 15, ThresholdDelayDecoder::new(4));
    assert!(store.fire_timeout(2));
    assert_eq!(store.results.len(), 2);
    let bits = &store.results[1].1;
    assert_eq!(bits.len(), 1);
    assert!(bits.get(0)); // delay 5
}

#[test]
fn late_arrival_never_contributes_to_the_closing_window() {
    let mut store = delay_session_store(10);
    store.push_signal(4, 0, ThresholdDelayDecoder::new(4));
    store.push_signal(4, 3, ThresholdDelayDecoder::new(4));
    // deadline is 13; a signal at 20 closes the window without joining it
    store.push_signal(4, 20, ThresholdDelayDecoder::new(4));
    assert_eq!(store.results.len(), 1);
    let bits = &store.results[0].1;
    assert_eq!(bits.len(), 1); // only the delay 3, nothing about 20 - 3
    assert!(!bits.get(0));
}

#[test]
fn keys_stay_isolated() {
    let mut store = delay_session_store(100);
    store.push_signal(1, 0, ThresholdDelayDecoder::new(10));
    store.push_signal(2, 5, ThresholdDelayDecoder::new(10));
    store.push_signal(1, 20, ThresholdDelayDecoder::new(10));
    store.push_signal(2, 6, ThresholdDelayDecoder::new(10));
    assert!(store.fire_timeout(1));
    assert!(store.fire_timeout(2));
    assert_eq!(store.results.len(), 2);
    // key 1 saw only its own delay of 20, key 2 only its delay of 1
    assert_eq!(store.results[0].0, 1);
    assert_eq!(store.results[0].1.len(), 1);
    assert!(store.results[0].1.get(0));
    assert_eq!(store.results[1].0, 2);
    assert_eq!(store.results[1].1.len(), 1);
    assert!(!store.results[1].1.get(0));
}

#[test]
fn one_open_session_per_key() {
    let mut store = delay_session_store(10);
    store.push_signal(3, 0, ThresholdDelayDecoder::new(4));
    store.push_signal(3, 1, ThresholdDelayDecoder::new(4));
    store.push_signal(3, 2, ThresholdDelayDecoder::new(4));
    assert_eq!(store.sessions.len(), 1);
    assert!(store.fire_timeout(3));
    assert!(store.sessions.is_empty());
    // a key with no open window reports that and changes nothing
    assert!(!store.fire_timeout(3));
    assert_eq!(store.results.len(), 1);
}

#[test]
fn store_runs_the_averaging_strategy_too() {
    let mut store = delay_session_store(100);
    store.push_signal(9, 0, AverageDelayDecoder::new());
    store.push_signal(9, 2, AverageDelayDecoder::new());
    store.push_signal(9, 6, AverageDelayDecoder::new());
    assert!(store.fire_timeout(9));
    // delays 2 and 4, mean 3
    let bits = &store.results[0].1;
    assert_eq!(bits.len(), 2);
    assert!(!bits.get(0));
    assert!(bits.get(1));
}
