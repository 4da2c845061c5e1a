use lunar_calendar::{phase_base_day, AstroError, PhaseKind};

#[test]
fn phase_codes_round_trip() {
    for nph in 0..4 {
        let kind = PhaseKind::from_code(nph).unwrap();
        assert_eq!(kind.code(), nph);
    }
    assert_eq!(PhaseKind::from_code(0), Ok(PhaseKind::NewMoon));
    assert_eq!(PhaseKind::from_code(1), Ok(PhaseKind::FirstQuarter));
    assert_eq!(PhaseKind::from_code(2), Ok(PhaseKind::FullMoon));
    assert_eq!(PhaseKind::from_code(3), Ok(PhaseKind::LastQuarter));
}

#[test]
fn phase_code_out_of_range_is_refused() {
    for nph in [-1, 4, 5, i32::MIN, i32::MAX] {
        assert_eq!(PhaseKind::from_code(nph), Err(AstroError::InvalidPhaseType));
    }
}

#[test]
fn quarters_are_told_apart() {
    assert!(!PhaseKind::NewMoon.is_quarter());
    assert!(PhaseKind::FirstQuarter.is_quarter());
    assert!(!PhaseKind::FullMoon.is_quarter());
    assert!(PhaseKind::LastQuarter.is_quarter());
}

#[test]
fn base_day_values() {
    assert_eq!(phase_base_day(0, PhaseKind::NewMoon), 2415020);
    assert_eq!(phase_base_day(42, PhaseKind::FullMoon), 2416210);
    assert_eq!(phase_base_day(21, PhaseKind::FirstQuarter), 2415615);
    assert_eq!(phase_base_day(-1, PhaseKind::LastQuarter), 2415013);
    assert_eq!(
        phase_base_day(i32::MIN, PhaseKind::NewMoon),
        2415020 + 28 * i64::from(i32::MIN)
    );
}
