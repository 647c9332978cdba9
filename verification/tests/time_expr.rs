use ddq::time_expr::{parse_relative, parse_to_unix, TimeError, MAX_INSTANT, MIN_INSTANT};

const NOW: i64 = 1_700_000_000;

#[test]
fn now_is_the_present() {
    assert_eq!(parse_to_unix("now", NOW), Ok(NOW));
    assert_eq!(parse_to_unix("  now\n", NOW), Ok(NOW));
    assert_eq!(parse_to_unix("now", -5), Ok(-5));
}

#[test]
fn whole_numbers_are_seconds() {
    assert_eq!(parse_to_unix("1700000123", NOW), Ok(1_700_000_123));
    assert_eq!(parse_to_unix(" 0 ", NOW), Ok(0));
    assert_eq!(parse_to_unix("-60", NOW), Ok(-60));
    assert_eq!(parse_to_unix("+60", NOW), Ok(60));
    assert_eq!(parse_to_unix("9223372036854775807", NOW), Ok(i64::MAX));
}

#[test]
fn offsets_reach_into_the_past() {
    assert_eq!(parse_to_unix("now-15m", NOW), Ok(NOW - 900));
    assert_eq!(parse_to_unix("now-30s", NOW), Ok(NOW - 30));
    assert_eq!(parse_to_unix("now-1h", NOW), Ok(NOW - 3_600));
    assert_eq!(parse_to_unix("now-2d", NOW), Ok(NOW - 172_800));
    assert_eq!(parse_to_unix("now-1w", NOW), Ok(NOW - 604_800));
    assert_eq!(parse_to_unix(" now-0s ", NOW), Ok(NOW));
}

#[test]
fn signed_offsets_are_accepted() {
    assert_eq!(parse_to_unix("now--5m", NOW), Ok(NOW + 300));
    assert_eq!(parse_to_unix("now-+5m", NOW), Ok(NOW - 300));
    assert_eq!(parse_relative("-1h", NOW), Ok(NOW + 3_600));
}

#[test]
fn relative_offsets_alone() {
    assert_eq!(parse_relative("15m", NOW), Ok(NOW - 900));
    assert_eq!(parse_relative("007d", 0), Ok(-604_800));
}

#[test]
fn short_offsets_are_refused() {
    assert_eq!(parse_to_unix("now-", NOW), Err(TimeError::TooShort(String::new())));
    assert_eq!(parse_to_unix("now-m", NOW), Err(TimeError::TooShort("m".to_string())));
    assert_eq!(parse_relative("5", NOW), Err(TimeError::TooShort("5".to_string())));
}

#[test]
fn bad_quantities_are_refused() {
    assert_eq!(parse_to_unix("now-xm", NOW), Err(TimeError::BadQuantity("x".to_string())));
    assert_eq!(parse_to_unix("now-1.5h", NOW), Err(TimeError::BadQuantity("1.5".to_string())));
    assert_eq!(parse_to_unix("now-1 h", NOW), Err(TimeError::BadQuantity("1 ".to_string())));
    assert_eq!(
        parse_to_unix("now-9223372036854775808s", NOW),
        Err(TimeError::BadQuantity("9223372036854775808".to_string()))
    );
    assert_eq!(parse_to_unix("now-xy", NOW), Err(TimeError::BadQuantity("x".to_string())));
}

#[test]
fn bad_units_are_refused() {
    assert_eq!(parse_to_unix("now-15x", NOW), Err(TimeError::BadUnit("x".to_string())));
    assert_eq!(parse_to_unix("now-15M", NOW), Err(TimeError::BadUnit("M".to_string())));
    assert_eq!(parse_to_unix("now-15", NOW), Err(TimeError::BadUnit("5".to_string())));
    assert_eq!(parse_to_unix("now-1\u{e9}", NOW), Err(TimeError::BadUnit("\u{e9}".to_string())));
}

#[test]
fn offsets_beyond_every_range_are_refused() {
    assert_eq!(
        parse_to_unix("now-9223372036854775807w", NOW),
        Err(TimeError::OutOfRange("9223372036854775807w".to_string()))
    );
    assert_eq!(
        parse_relative("-9223372036854775807s", NOW),
        Err(TimeError::OutOfRange("-9223372036854775807s".to_string()))
    );
    assert_eq!(parse_relative("9223372036854775807s", -2), Err(TimeError::OutOfRange(
        "9223372036854775807s".to_string()
    )));
    assert_eq!(parse_relative("9223372036854775807s", -1), Err(TimeError::OutOfRange(
        "9223372036854775807s".to_string()
    )));
    assert_eq!(parse_relative("-9223372036854775807s", 0), Err(TimeError::OutOfRange(
        "-9223372036854775807s".to_string()
    )));
}

#[test]
fn range_of_instants_is_that_of_chrono() {
    assert_eq!(MIN_INSTANT, chrono::DateTime::<chrono::Utc>::MIN_UTC.timestamp());
    assert_eq!(MAX_INSTANT, chrono::DateTime::<chrono::Utc>::MAX_UTC.timestamp());
    assert!(chrono::DateTime::from_timestamp(MIN_INSTANT, 0).is_some());
    assert!(chrono::DateTime::from_timestamp(MIN_INSTANT - 1, 0).is_none());
    assert!(chrono::DateTime::from_timestamp(MAX_INSTANT, 0).is_some());
    assert!(chrono::DateTime::from_timestamp(MAX_INSTANT + 1, 0).is_none());
}

#[test]
fn offsets_stay_within_the_range_of_chrono() {
    assert_eq!(parse_relative("0s", MIN_INSTANT), Ok(MIN_INSTANT));
    assert_eq!(parse_relative("1s", MIN_INSTANT + 1), Ok(MIN_INSTANT));
    assert_eq!(parse_relative("1s", MIN_INSTANT), Err(TimeError::OutOfRange("1s".to_string())));
    assert_eq!(parse_relative("0s", MAX_INSTANT), Ok(MAX_INSTANT));
    assert_eq!(parse_relative("-1s", MAX_INSTANT - 1), Ok(MAX_INSTANT));
    assert_eq!(parse_relative("-1s", MAX_INSTANT), Err(TimeError::OutOfRange("-1s".to_string())));
    assert_eq!(
        parse_relative("16544868105600s", MAX_INSTANT),
        Err(TimeError::OutOfRange("16544868105600s".to_string()))
    );
    assert_eq!(parse_relative("16544868105599s", MAX_INSTANT), Ok(MIN_INSTANT));
    assert_eq!(parse_relative("-16544868105599s", MIN_INSTANT), Ok(MAX_INSTANT));
}

#[test]
fn present_outside_the_range_of_chrono_is_refused() {
    assert_eq!(
        parse_relative("0s", MAX_INSTANT + 1),
        Err(TimeError::OutOfRange("0s".to_string()))
    );
    assert_eq!(
        parse_relative("-5m", MIN_INSTANT - 1),
        Err(TimeError::OutOfRange("-5m".to_string()))
    );
    assert_eq!(parse_relative("1s", i64::MIN), Err(TimeError::OutOfRange("1s".to_string())));
    assert_eq!(parse_to_unix("now", i64::MAX), Ok(i64::MAX));
}

#[test]
fn offsets_agree_with_chrono() {
    let presents = [
        0i64, 1, -1, NOW, MIN_INSTANT, MIN_INSTANT + 86_400, MAX_INSTANT, MAX_INSTANT - 86_400,
        MIN_INSTANT - 1, MAX_INSTANT + 1, i64::MIN, i64::MAX,
    ];
    let quantities = [
        0i64, 1, -1, 15, 86_400, -86_400, 13_000_000, 27_000_000, 200_000_000, 16544868105599,
        -16544868105599, 16544868105600, 9_223_372_036_854_775, 9_223_372_036_854_776,
        -9_223_372_036_854_776, i64::MAX, i64::MIN + 1,
    ];
    let units = [('s', 1i64), ('m', 60), ('h', 3_600), ('d', 86_400), ('w', 604_800)];
    for now in presents {
        for quantity in quantities {
            for (unit, seconds) in units {
                let offset = format!("{}{}", quantity, unit);
                let expected = quantity
                    .checked_mul(seconds)
                    .and_then(chrono::TimeDelta::try_seconds)
                    .and_then(|span| {
                        chrono::DateTime::from_timestamp(now, 0)
                            .and_then(|present| present.checked_sub_signed(span))
                    })
                    .map(|instant| instant.timestamp());
                let found = parse_relative(&offset, now);
                match expected {
                    Some(instant) => assert_eq!(found, Ok(instant), "{} before {}", offset, now),
                    None => assert_eq!(
                        found,
                        Err(TimeError::OutOfRange(offset.clone())),
                        "{} before {}",
                        offset,
                        now
                    ),
                }
            }
        }
    }
}

#[test]
fn rfc3339_is_read_by_chrono() {
    assert_eq!(parse_to_unix("2024-01-01T00:00:00Z", NOW), Ok(1_704_067_200));
    assert_eq!(parse_to_unix(" 2024-01-01T01:00:00+01:00 ", NOW), Ok(1_704_067_200));
    assert_eq!(parse_to_unix("1970-01-01T00:00:00.999Z", NOW), Ok(0));
    assert_eq!(parse_to_unix("1969-12-31T23:59:59Z", NOW), Ok(-1));
    for sample in ["2023-11-14T22:13:20Z", "1996-12-19T16:39:57-08:00", "2024-02-29 12:00:00Z"] {
        let expected = chrono::DateTime::parse_from_rfc3339(sample).unwrap().timestamp();
        assert_eq!(parse_to_unix(sample, NOW), Ok(expected));
    }
}

#[test]
fn other_texts_are_unsupported() {
    assert_eq!(parse_to_unix("yesterday", NOW), Err(TimeError::Unsupported("yesterday".to_string())));
    assert_eq!(parse_to_unix("", NOW), Err(TimeError::Unsupported(String::new())));
    assert_eq!(parse_to_unix("  ", NOW), Err(TimeError::Unsupported(String::new())));
    assert_eq!(parse_to_unix("NOW", NOW), Err(TimeError::Unsupported("NOW".to_string())));
    assert_eq!(parse_to_unix("now+5m", NOW), Err(TimeError::Unsupported("now+5m".to_string())));
    assert_eq!(parse_to_unix("now -5m", NOW), Err(TimeError::Unsupported("now -5m".to_string())));
    assert_eq!(parse_to_unix("2024-01-01", NOW), Err(TimeError::Unsupported("2024-01-01".to_string())));
    assert_eq!(
        parse_to_unix("2024-13-01T00:00:00Z", NOW),
        Err(TimeError::Unsupported("2024-13-01T00:00:00Z".to_string()))
    );
}

#[test]
fn time_errors_in_words() {
    assert_eq!(
        TimeError::Unsupported("yesterday".to_string()).message(),
        "Unsupported time format `yesterday`"
    );
    assert_eq!(
        TimeError::TooShort("m".to_string()).message(),
        "Invalid relative time `m`. Expected e.g. now-15m."
    );
    assert_eq!(
        TimeError::BadQuantity("x".to_string()).message(),
        "Invalid relative duration quantity `x`"
    );
    assert_eq!(
        TimeError::BadUnit("y".to_string()).message(),
        "Invalid relative duration unit `y`. Use one of s,m,h,d,w."
    );
    assert_eq!(
        TimeError::OutOfRange("9w".to_string()).message(),
        "Relative time `9w` is out of range."
    );
}
