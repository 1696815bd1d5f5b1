use transport_chain::sampler::{
    centi_text, sample, scale_sample, HUMIDITY_MAX_CENTI, HUMIDITY_MIN_CENTI,
    TEMPERATURE_MAX_CENTI, TEMPERATURE_MIN_CENTI,
};

#[test]
fn scale_sample_hits_both_ends() {
    assert_eq!(scale_sample(-500, 3000, 0), -500);
    assert_eq!(scale_sample(-500, 3000, u64::MAX), 3000);
}

#[test]
fn scale_sample_midpoint() {
    assert_eq!(scale_sample(0, 10000, 1u64 << 63), 5000);
    assert_eq!(scale_sample(-500, 3000, 1u64 << 63), 1250);
}

#[test]
fn scale_sample_of_an_empty_range() {
    assert_eq!(scale_sample(42, 42, 123456789), 42);
}

#[test]
fn samples_stay_in_range() {
    for _ in 0..2000 {
        let t = sample(TEMPERATURE_MIN_CENTI, TEMPERATURE_MAX_CENTI);
        assert!((-500..=3000).contains(&t));
        let h = sample(HUMIDITY_MIN_CENTI, HUMIDITY_MAX_CENTI);
        assert!((0..=10000).contains(&h));
    }
}

#[test]
fn readings_have_two_decimals() {
    assert_eq!(centi_text(-325), "-3.25");
    assert_eq!(centi_text(5), "0.05");
    assert_eq!(centi_text(3000), "30.00");
    assert_eq!(centi_text(-500), "-5.00");
    assert_eq!(centi_text(123456), "1234.56");
    assert_eq!(centi_text(0), "0.00");
    assert_eq!(centi_text(i64::MIN), "-92233720368547758.08");
}

#[test]
fn ties_round_away_from_zero() {
    assert_eq!(scale_sample(-500, 3000, 1u64 << 61), -63);
    assert_eq!(scale_sample(0, 3500, 1u64 << 61), 438);
}
