use codedestate::date::{parse_period, Period};

fn written(entries: &[&str]) -> Vec<String> {
    entries.iter().map(|entry| entry.to_string()).collect()
}

#[test]
fn period_is_read_as_day_numbers() {
    let period = parse_period(&written(&["2024/01/01", "2024/01/03"])).unwrap();
    assert_eq!(period, Period { check_in: 738886, check_out: 738888 });
}

#[test]
fn day_one_is_the_first_of_january_of_year_one() {
    let period = parse_period(&written(&["0001/01/01", "1970/01/01"])).unwrap();
    assert_eq!(period.check_in, 1);
    assert_eq!(period.check_out, 719163);
}

#[test]
fn nights_cross_a_leap_day() {
    let period = parse_period(&written(&["2024/02/28", "2024/03/01"])).unwrap();
    assert_eq!(period.check_out - period.check_in, 2);
    let period = parse_period(&written(&["2023/02/28", "2023/03/01"])).unwrap();
    assert_eq!(period.check_out - period.check_in, 1);
}

#[test]
fn month_and_day_may_be_written_without_a_leading_zero() {
    let short = parse_period(&written(&["2024/1/5", "2024/1/9"])).unwrap();
    let long = parse_period(&written(&["2024/01/05", "2024/01/09"])).unwrap();
    assert_eq!(short, long);
}

#[test]
fn an_inverted_period_is_read_as_written() {
    let period = parse_period(&written(&["2024/01/03", "2024/01/01"])).unwrap();
    assert!(period.check_out < period.check_in);
}

#[test]
fn entries_after_the_second_are_not_read() {
    let period = parse_period(&written(&["2024/01/01", "2024/01/03", "whatever"])).unwrap();
    assert_eq!(period, Period { check_in: 738886, check_out: 738888 });
}

#[test]
fn fewer_than_two_entries_are_no_period() {
    assert_eq!(parse_period(&written(&[])), None);
    assert_eq!(parse_period(&written(&["2024/01/01"])), None);
}

#[test]
fn text_that_is_no_date_is_no_period() {
    assert_eq!(parse_period(&written(&["2024-01-01", "2024/01/03"])), None);
    assert_eq!(parse_period(&written(&["2024/01/01", "soon"])), None);
    assert_eq!(parse_period(&written(&["", ""])), None);
    assert_eq!(parse_period(&written(&["2024/01/01", "2024/01/03 "])), None);
}

#[test]
fn a_day_that_the_month_does_not_have_is_no_date() {
    assert_eq!(parse_period(&written(&["2015/9/31", "2015/10/02"])), None);
    assert_eq!(parse_period(&written(&["2023/02/29", "2023/03/02"])), None);
    assert_eq!(parse_period(&written(&["2024/13/01", "2024/13/02"])), None);
}
