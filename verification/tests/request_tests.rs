use aochelper::request::{
    build_puzzle_url, session_cookie, validate, RangeError, MAX_YEAR, MIN_YEAR,
};

#[test]
fn validate_admits_the_bounds() {
    let first = validate(2015, 1).unwrap();
    assert_eq!(first.year(), 2015);
    assert_eq!(first.day(), 1);
    let last = validate(MAX_YEAR, 25).unwrap();
    assert_eq!(last.year(), 2023);
    assert_eq!(last.day(), 25);
    assert_eq!(MIN_YEAR, 2015);
}

#[test]
fn validate_rejects_years_out_of_range() {
    assert_eq!(validate(2014, 5), Err(RangeError::InvalidYear(2014)));
    assert_eq!(validate(2024, 5), Err(RangeError::InvalidYear(2024)));
    assert_eq!(validate(0, 5), Err(RangeError::InvalidYear(0)));
    assert_eq!(validate(u16::MAX, 5), Err(RangeError::InvalidYear(u16::MAX)));
}

#[test]
fn validate_rejects_days_out_of_range() {
    assert_eq!(validate(2022, 0), Err(RangeError::InvalidDay(0)));
    assert_eq!(validate(2022, 26), Err(RangeError::InvalidDay(26)));
    assert_eq!(validate(2022, 255), Err(RangeError::InvalidDay(255)));
}

#[test]
fn validate_judges_the_year_first() {
    assert_eq!(validate(1999, 99), Err(RangeError::InvalidYear(1999)));
}

#[test]
fn validate_rejects_everything_out_of_range() {
    for year in 0..=u16::MAX {
        for day in [0u8, 1, 13, 25, 26, 255] {
            let admitted = (2015..=2023).contains(&year) && (1..=25).contains(&day);
            assert_eq!(validate(year, day).is_ok(), admitted);
            assert_eq!(build_puzzle_url(year, day).is_ok(), admitted);
        }
    }
}

#[test]
fn url_of_a_puzzle() {
    assert_eq!(
        build_puzzle_url(2022, 5),
        Ok(String::from("https://adventofcode.com/2022/day/5/input"))
    );
    assert_eq!(
        build_puzzle_url(2015, 25),
        Ok(String::from("https://adventofcode.com/2015/day/25/input"))
    );
    assert_eq!(validate(2023, 1).unwrap().url(), "https://adventofcode.com/2023/day/1/input");
}

#[test]
fn url_is_refused_out_of_range() {
    assert_eq!(build_puzzle_url(2024, 1), Err(RangeError::InvalidYear(2024)));
    assert_eq!(build_puzzle_url(2020, 0), Err(RangeError::InvalidDay(0)));
}

#[test]
fn range_error_names_the_value() {
    assert_eq!(RangeError::InvalidYear(2014).message(), "Invalid year: 2014");
    assert_eq!(RangeError::InvalidDay(26).message(), "Invalid day: 26");
}

#[test]
fn session_cookie_header_value() {
    assert_eq!(session_cookie("abc123"), "session=abc123");
    assert_eq!(session_cookie(""), "session=");
}
