use alarmclock::task::power::{median_adc_reading, vbus_change_candidate, vbus_debounce_step, Debounce};

#[test]
fn median_of_an_odd_count() {
    assert_eq!(median_adc_reading(&vec![Some(5), Some(1), Some(3)]), Some(3));
    assert_eq!(median_adc_reading(&vec![Some(2000); 9]), Some(2000));
}

#[test]
fn median_of_an_even_count_is_the_truncated_mean() {
    assert_eq!(median_adc_reading(&vec![Some(10), Some(11)]), Some(10));
    assert_eq!(median_adc_reading(&vec![Some(4000), None, Some(100), Some(300), Some(200)]), Some(250));
}

#[test]
fn failed_reads_are_skipped() {
    assert_eq!(median_adc_reading(&vec![None, Some(7), None]), Some(7));
    assert_eq!(median_adc_reading(&vec![None; 9]), None);
    assert_eq!(median_adc_reading(&vec![]), None);
}

#[test]
fn an_outlier_does_not_move_the_median() {
    let reads = vec![Some(1500), Some(1502), Some(4095), Some(1499), Some(1501), Some(0), Some(1500), Some(1503), Some(1498)];
    assert_eq!(median_adc_reading(&reads), Some(1500));
}

#[test]
fn only_the_last_nine_samples_count() {
    let mut reads = vec![Some(4000); 5];
    reads.extend(vec![Some(10); 9]);
    assert_eq!(median_adc_reading(&reads), Some(10));
}

#[test]
fn debounce_candidates() {
    assert!(vbus_change_candidate(true, false));
    assert!(!vbus_change_candidate(true, true));
}

#[test]
fn five_agreeing_readings_confirm() {
    let mut agreed = 0u8;
    for _ in 0..4 {
        match vbus_debounce_step(agreed, true, true) {
            Debounce::Sample(n) => agreed = n,
            other => panic!("unexpected {:?}", other),
        }
    }
    assert_eq!(agreed, 4);
    assert_eq!(vbus_debounce_step(agreed, true, true), Debounce::Confirmed);
}

#[test]
fn a_disagreeing_reading_rejects() {
    assert_eq!(vbus_debounce_step(2, false, true), Debounce::Rejected(2));
    assert_eq!(vbus_debounce_step(0, true, false), Debounce::Rejected(0));
}
