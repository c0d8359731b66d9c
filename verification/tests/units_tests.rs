use ryo3_jiff::units::{
    ChoiceError, JiffEra, JiffRoundMode, JiffTzDisambiguation, JiffTzOffsetConflict, JiffUnit,
    JiffWeekday, PyDesignator, RyWeekday,
};

#[test]
fn unit_names_read_in_any_ascii_case() {
    assert_eq!(JiffUnit::parse("year"), Ok(JiffUnit::Year));
    assert_eq!(JiffUnit::parse("YEAR"), Ok(JiffUnit::Year));
    assert_eq!(JiffUnit::parse("NanoSecond"), Ok(JiffUnit::Nanosecond));
    assert_eq!(JiffUnit::parse("years"), Err(ChoiceError::UnknownName));
    assert_eq!(JiffUnit::parse(""), Err(ChoiceError::UnknownName));
}

#[test]
fn unit_numbers_run_from_years_to_nanoseconds() {
    assert_eq!(JiffUnit::from_number(0), Ok(JiffUnit::Year));
    assert_eq!(JiffUnit::from_number(3), Ok(JiffUnit::Day));
    assert_eq!(JiffUnit::from_number(9), Ok(JiffUnit::Nanosecond));
    assert_eq!(JiffUnit::from_number(10), Err(ChoiceError::UnknownNumber));
    assert_eq!(JiffUnit::from_number(-1), Err(ChoiceError::UnknownNumber));
}

#[test]
fn unit_name_roundtrip_on_every_unit() {
    for i in 0..10 {
        let u = JiffUnit::from_number(i).unwrap();
        assert_eq!(JiffUnit::parse(u.static_str()), Ok(u));
    }
    assert_eq!(JiffUnit::Millisecond.static_str(), "millisecond");
}

#[test]
fn round_modes_read_in_any_ascii_case() {
    assert_eq!(JiffRoundMode::parse("half-expand"), Ok(JiffRoundMode::HalfExpand));
    assert_eq!(JiffRoundMode::parse("TRUNC"), Ok(JiffRoundMode::Trunc));
    assert_eq!(JiffRoundMode::HalfEven.static_str(), "half-even");
    assert_eq!(JiffRoundMode::parse("round"), Err(ChoiceError::UnknownName));
}

#[test]
fn weekdays_by_name_and_number() {
    assert_eq!(JiffWeekday::parse("monday"), Ok(JiffWeekday::Monday));
    assert_eq!(JiffWeekday::from_number(7), Ok(JiffWeekday::Sunday));
    assert_eq!(JiffWeekday::from_number(0), Err(ChoiceError::UnknownNumber));
    assert_eq!(JiffWeekday::Wednesday.number(), 3);
    for i in 1..8 {
        let w = JiffWeekday::from_number(i).unwrap();
        assert_eq!(w.number() as i64, i);
        assert_eq!(JiffWeekday::parse(w.static_str()), Ok(w));
    }
    assert_eq!(RyWeekday(JiffWeekday::Friday).string(), "friday");
}

#[test]
fn eras_and_policies_by_name() {
    assert_eq!(JiffEra::parse("bce"), Ok(JiffEra::BCE));
    assert_eq!(JiffEra::parse("bc"), Ok(JiffEra::BCE));
    assert_eq!(JiffEra::CE.static_str(), "CE");
    assert_eq!(JiffTzDisambiguation::parse("earlier"), Ok(JiffTzDisambiguation::Earlier));
    assert_eq!(JiffTzDisambiguation::parse("sooner"), Err(ChoiceError::UnknownName));
    assert_eq!(JiffTzOffsetConflict::parse("always_offset"), Ok(JiffTzOffsetConflict::AlwaysOffset));
    assert_eq!(JiffTzOffsetConflict::Reject.static_str(), "reject");
    assert_eq!(PyDesignator::parse("human"), Ok(PyDesignator::HumanTime));
    assert_eq!(PyDesignator::parse("verbose"), Ok(PyDesignator::Verbose));
    assert_eq!(PyDesignator::HumanTime.static_str(), "human-time");
}

#[test]
fn era_names_ignore_ascii_case() {
    assert_eq!(JiffEra::parse("Ce"), Ok(JiffEra::CE));
    assert_eq!(JiffEra::parse("Bce"), Ok(JiffEra::BCE));
    assert_eq!(JiffEra::parse("Ad"), Ok(JiffEra::CE));
    assert_eq!(JiffEra::parse("BC"), Ok(JiffEra::BCE));
    assert!(JiffEra::parse("era").is_err());
}
