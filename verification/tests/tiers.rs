use trp_proxy::proxy::tiers::{
    deserialize_duration, interval_from_captures, interval_from_parts, IntervalError, Tier,
    TierRate, MAX_INTERVAL_SECS,
};

#[test]
fn interval_in_each_unit() {
    assert_eq!(deserialize_duration("1s"), Ok(1));
    assert_eq!(deserialize_duration("30s"), Ok(30));
    assert_eq!(deserialize_duration("5m"), Ok(300));
    assert_eq!(deserialize_duration("1h"), Ok(3600));
    assert_eq!(deserialize_duration("2h"), Ok(7200));
    assert_eq!(deserialize_duration("1d"), Ok(86400));
    assert_eq!(deserialize_duration("7d"), Ok(604800));
}

#[test]
fn interval_of_zero_is_refused() {
    assert_eq!(deserialize_duration("0s"), Err(IntervalError::Zero));
    assert_eq!(deserialize_duration("0d"), Err(IntervalError::Zero));
    assert_eq!(deserialize_duration("000m"), Err(IntervalError::Zero));
    assert_eq!(deserialize_duration("0x"), Err(IntervalError::Zero));
    assert_eq!(deserialize_duration("00"), Err(IntervalError::Zero));
    assert_eq!(interval_from_parts("0", "h"), Err(IntervalError::Zero));
    assert_eq!(deserialize_duration("01s"), Ok(1));
}

#[test]
fn interval_without_number_and_unit_is_refused() {
    assert_eq!(deserialize_duration(""), Err(IntervalError::Format));
    assert_eq!(deserialize_duration("s"), Err(IntervalError::Format));
    assert_eq!(deserialize_duration("abc"), Err(IntervalError::Format));
    assert_eq!(deserialize_duration("5"), Err(IntervalError::Format));
    assert_eq!(deserialize_duration("5 s"), Err(IntervalError::Format));
}

#[test]
fn interval_with_unknown_unit_is_refused() {
    assert_eq!(deserialize_duration("10x"), Err(IntervalError::Symbol));
    assert_eq!(deserialize_duration("10S"), Err(IntervalError::Symbol));
    assert_eq!(deserialize_duration("10w"), Err(IntervalError::Symbol));
    // The last digit is taken for the unit where no letter follows.
    assert_eq!(deserialize_duration("10"), Err(IntervalError::Symbol));
}

#[test]
fn interval_must_be_the_whole_text() {
    assert_eq!(deserialize_duration("15m"), Ok(900));
    assert_eq!(deserialize_duration("1.5h"), Err(IntervalError::Format));
    assert_eq!(deserialize_duration("every 15m"), Err(IntervalError::Format));
    assert_eq!(deserialize_duration("15min"), Err(IntervalError::Format));
    assert_eq!(deserialize_duration("15mm"), Err(IntervalError::Format));
    assert_eq!(deserialize_duration("1x2s"), Err(IntervalError::Format));
    assert_eq!(deserialize_duration(" 15m"), Err(IntervalError::Format));
    assert_eq!(deserialize_duration("15m "), Err(IntervalError::Format));
    assert_eq!(deserialize_duration("15m\n"), Err(IntervalError::Format));
    assert_eq!(deserialize_duration("+15m"), Err(IntervalError::Format));
    assert_eq!(deserialize_duration("-15m"), Err(IntervalError::Format));
    assert_eq!(deserialize_duration("15m30s"), Err(IntervalError::Format));
}

#[test]
fn interval_number_must_fit() {
    assert_eq!(deserialize_duration("18446744073709551615s"), Ok(u64::MAX));
    assert_eq!(deserialize_duration("18446744073709551616s"), Err(IntervalError::Number));
    assert_eq!(deserialize_duration("18446744073709551615m"), Err(IntervalError::Overflow));
    assert_eq!(deserialize_duration("307445734561825861m"), Err(IntervalError::Overflow));
    assert_eq!(deserialize_duration("307445734561825860m"), Ok(18446744073709551600));
}

#[test]
fn interval_number_in_other_digits_is_refused() {
    assert_eq!(deserialize_duration("١٢s"), Err(IntervalError::Number));
}

#[test]
fn interval_from_captures_reads_groups_one_and_two() {
    let groups = Some(vec![Some("15m".to_string()), Some("15".to_string()), Some("m".to_string())]);
    assert_eq!(interval_from_captures(&groups, "15m"), Ok(900));
    assert_eq!(interval_from_captures(&None, "15m"), Err(IntervalError::Format));
    assert_eq!(interval_from_captures(&Some(vec![]), "15m"), Err(IntervalError::Format));
    let short = Some(vec![Some("15".to_string()), Some("15".to_string())]);
    assert_eq!(interval_from_captures(&short, "15"), Err(IntervalError::Format));
    let absent = Some(vec![Some("m".to_string()), None, Some("m".to_string())]);
    assert_eq!(interval_from_captures(&absent, "m"), Err(IntervalError::Format));
    let no_unit = Some(vec![Some("15".to_string()), Some("15".to_string()), None]);
    assert_eq!(interval_from_captures(&no_unit, "15"), Err(IntervalError::Format));
    let no_match = Some(vec![None, Some("15".to_string()), Some("m".to_string())]);
    assert_eq!(interval_from_captures(&no_match, "15m"), Err(IntervalError::Format));
}

#[test]
fn interval_from_captures_refuses_a_match_of_a_part() {
    let part = Some(vec![Some("5h".to_string()), Some("5".to_string()), Some("h".to_string())]);
    assert_eq!(interval_from_captures(&part, "5h"), Ok(18000));
    assert_eq!(interval_from_captures(&part, "1.5h"), Err(IntervalError::Format));
    assert_eq!(interval_from_captures(&part, "5hours"), Err(IntervalError::Format));
    assert_eq!(interval_from_captures(&part, ""), Err(IntervalError::Format));
    // The whole text, but not the number followed by the unit.
    let apart = Some(vec![Some("5 h".to_string()), Some("5".to_string()), Some("h".to_string())]);
    assert_eq!(interval_from_captures(&apart, "5 h"), Err(IntervalError::Format));
    let signed = Some(vec![Some("+5h".to_string()), Some("+5".to_string()), Some("h".to_string())]);
    assert_eq!(interval_from_captures(&signed, "+5h"), Err(IntervalError::Number));
}

#[test]
fn interval_from_parts_gives_each_error() {
    assert_eq!(interval_from_parts("2", "d"), Ok(172800));
    assert_eq!(interval_from_parts("", "s"), Err(IntervalError::Number));
    assert_eq!(interval_from_parts("two", "s"), Err(IntervalError::Number));
    assert_eq!(interval_from_parts("+2", "s"), Err(IntervalError::Number));
    assert_eq!(interval_from_parts("18446744073709551616", "s"), Err(IntervalError::Number));
    assert_eq!(interval_from_parts("2", "y"), Err(IntervalError::Symbol));
    assert_eq!(interval_from_parts("2", ""), Err(IntervalError::Symbol));
    assert_eq!(interval_from_parts("2", "ss"), Err(IntervalError::Symbol));
    assert_eq!(interval_from_parts("213503982334602", "d"), Err(IntervalError::Overflow));
    assert_eq!(interval_from_parts("213503982334601", "d"), Ok(18446744073709526400));
}

#[test]
fn rule_validity() {
    assert!(TierRate::new(0, 1).is_valid());
    assert!(TierRate::new(5, 86400).is_valid());
    assert!(TierRate::new(isize::MAX, MAX_INTERVAL_SECS).is_valid());
    assert!(!TierRate::new(-1, 1).is_valid());
    assert!(!TierRate::new(5, 0).is_valid());
    assert!(!TierRate::new(5, MAX_INTERVAL_SECS + 1).is_valid());
    assert_eq!(MAX_INTERVAL_SECS, u64::MAX / 2000);
}

#[test]
fn tier_validity_and_clone() {
    let tier = Tier::new("free".to_string(), vec![TierRate::new(5, 1), TierRate::new(100, 86400)]);
    assert!(tier.is_valid());
    assert_eq!(tier.clone(), tier);
    assert_eq!(tier.name, "free");
    assert_eq!(tier.rates, vec![TierRate { limit: 5, interval: 1 }, TierRate { limit: 100, interval: 86400 }]);
    let broken = Tier::new("bad".to_string(), vec![TierRate::new(5, 1), TierRate::new(5, 0)]);
    assert!(!broken.is_valid());
    assert!(Tier::new("none".to_string(), vec![]).is_valid());
}

#[test]
fn interval_error_messages() {
    assert_eq!(IntervalError::Format.message(), "Invalid tier interval format");
    assert_eq!(IntervalError::Symbol.message(), "Invalid symbol tier interval");
    assert_eq!(IntervalError::Number.message(), "Invalid number tier interval");
    assert_eq!(IntervalError::Zero.message(), "Invalid zero tier interval");
    assert_eq!(IntervalError::Overflow.message(), "Invalid length tier interval");
}
