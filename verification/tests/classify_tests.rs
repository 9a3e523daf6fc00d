use tfl_status::classify::{classify, StatusColor};

#[test]
fn good_service_sentinel() {
    assert_eq!(classify(10), StatusColor::Good);
}

#[test]
fn severe_sentinel() {
    assert_eq!(classify(20), StatusColor::Severe);
}

#[test]
fn warning_band() {
    assert_eq!(classify(8), StatusColor::Warning);
    assert_eq!(classify(9), StatusColor::Warning);
    assert_eq!(classify(11), StatusColor::Warning);
    assert_eq!(classify(19), StatusColor::Warning);
    assert_eq!(classify(21), StatusColor::Warning);
    assert_eq!(classify(1000), StatusColor::Warning);
    assert_eq!(classify(i64::MAX), StatusColor::Warning);
}

#[test]
fn below_band_is_severe() {
    assert_eq!(classify(7), StatusColor::Severe);
    assert_eq!(classify(0), StatusColor::Severe);
    assert_eq!(classify(-1), StatusColor::Severe);
    assert_eq!(classify(i64::MIN), StatusColor::Severe);
}
