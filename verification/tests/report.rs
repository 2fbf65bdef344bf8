use lanebench::decimal::append_decimal;
use lanebench::report::{iteration_line, summary_line, total_micros};

#[test]
fn numbers_are_written_in_decimal() {
    for n in [0u128, 1, 9, 10, 11, 99, 100, 12345, 1_000_000, u64::MAX as u128, u128::MAX] {
        let mut out = String::from("x=");
        append_decimal(&mut out, n);
        assert_eq!(out, format!("x={}", n));
    }
}

#[test]
fn iteration_line_has_its_fixed_shape() {
    assert_eq!(iteration_line(0, 10), "Iter:0 time 10 us");
    assert_eq!(iteration_line(9, 0), "Iter:9 time 0 us");
    assert_eq!(iteration_line(12, 3045), "Iter:12 time 3045 us");
    assert_eq!(
        iteration_line(usize::MAX, u64::MAX),
        format!("Iter:{} time {} us", usize::MAX, u64::MAX)
    );
}

#[test]
fn summary_line_has_its_fixed_shape() {
    assert_eq!(summary_line(60, 20), "Total:60 us, Avg: 20 us");
    assert_eq!(summary_line(0, 0), "Total:0 us, Avg: 0 us");
    assert_eq!(summary_line(u128::MAX, 7), format!("Total:{} us, Avg: {} us", u128::MAX, 7));
}

#[test]
fn total_is_the_sum_of_the_samples() {
    assert_eq!(total_micros(&Vec::new()), 0);
    assert_eq!(total_micros(&vec![5]), 5);
    assert_eq!(total_micros(&vec![10, 20, 30]), 60);
    assert_eq!(total_micros(&vec![u64::MAX, u64::MAX, 2]), 2 * (u64::MAX as u128) + 2);
}
