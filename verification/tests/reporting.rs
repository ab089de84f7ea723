use cachebench::report;

#[test]
fn metric_renders_two_decimal_places() {
    // 1048576 / 500000 = 2.097152, rounded to two places: 2.10.
    assert_eq!(report::format_metric(1048576, 500000), "2.10");
}

#[test]
fn report_line_format() {
    assert_eq!(
        report::report_line(1, 1048576, 500000),
        "Level 1: Elements/cycle: 2.10"
    );
    assert_eq!(report::report_line(4, 0, 123), "Level 4: Elements/cycle: 0.00");
}

#[test]
fn metric_rounds_half_up() {
    // 1 / 8 = 0.125: the exact half rounds up.
    assert_eq!(report::format_metric(1, 8), "0.13");
    // 1 / 3 = 0.333...: rounds down.
    assert_eq!(report::format_metric(1, 3), "0.33");
    // 2 / 3 = 0.666...: rounds up.
    assert_eq!(report::format_metric(2, 3), "0.67");
}

#[test]
fn metric_whole_numbers() {
    assert_eq!(report::format_metric(1000, 1), "1000.00");
    assert_eq!(report::format_metric(0, 5), "0.00");
    assert_eq!(report::format_metric(3, 2), "1.50");
}

#[test]
fn metric_of_zero_cycles_is_inf() {
    assert_eq!(report::format_metric(5, 0), "inf");
    assert_eq!(report::report_line(2, 5, 0), "Level 2: Elements/cycle: inf");
}

#[test]
fn decimal_rendering() {
    assert_eq!(report::decimal_string(0), "0");
    assert_eq!(report::decimal_string(7), "7");
    assert_eq!(report::decimal_string(10), "10");
    assert_eq!(report::decimal_string(1234567890), "1234567890");
    assert_eq!(
        report::decimal_string(u128::MAX),
        "340282366920938463463374607431768211455"
    );
}
