use stamon::digits::cents_to_string;
use stamon::digits::u128_to_string;
use stamon::disk::disk_cycle;
use stamon::disk::disk_line;
use stamon::disk::used_percentage;

#[test]
fn percentage_of_example_pair() {
    assert_eq!(used_percentage(100, 30), Some(70));
}

#[test]
fn percentage_rounds_up() {
    // 2 of 3 blocks used: 66.66... rounds up to 67.
    assert_eq!(used_percentage(3, 1), Some(67));
    // 1 of 3 blocks used: 33.33... rounds up to 34.
    assert_eq!(used_percentage(3, 2), Some(34));
}

#[test]
fn percentage_bounds() {
    assert_eq!(used_percentage(1, 1), Some(0));
    assert_eq!(used_percentage(1, 0), Some(100));
    assert_eq!(used_percentage(u64::MAX, 0), Some(100));
    assert_eq!(used_percentage(u64::MAX, u64::MAX), Some(0));
}

#[test]
fn percentage_of_zero_total_is_unavailable() {
    assert_eq!(used_percentage(0, 0), None);
    assert_eq!(used_percentage(0, 5), None);
}

#[test]
fn percentage_of_excess_free_is_unavailable() {
    assert_eq!(used_percentage(10, 11), None);
}

#[test]
fn line_wraps_percentage() {
    assert_eq!(disk_line("d ", 70, "%"), "d 70%");
    assert_eq!(disk_line("", 0, ""), "0");
}

#[test]
fn failed_cycle_prints_nothing() {
    assert_eq!(disk_cycle(Err(-1), "d ", "%"), None);
    assert_eq!(disk_cycle(Ok((0, 0)), "d ", "%"), None);
}

#[test]
fn successful_cycle_prints_one_line() {
    assert_eq!(disk_cycle(Ok((100, 30)), "d ", "%"), Some("d 70%".to_string()));
}

#[test]
fn cycle_recovers_after_failure() {
    // A failing cycle is skipped; the next successful one resumes output.
    assert_eq!(disk_cycle(Err(-1), "d ", "%"), None);
    assert_eq!(disk_cycle(Ok((4, 1)), "d ", "%"), Some("d 75%".to_string()));
}

#[test]
fn integer_rendering() {
    assert_eq!(u128_to_string(0), "0");
    assert_eq!(u128_to_string(7), "7");
    assert_eq!(u128_to_string(100), "100");
    assert_eq!(u128_to_string(90210), "90210");
    assert_eq!(u128_to_string(u128::MAX), "340282366920938463463374607431768211455");
}

#[test]
fn cent_rendering() {
    assert_eq!(cents_to_string(0), "0.00");
    assert_eq!(cents_to_string(5), "0.05");
    assert_eq!(cents_to_string(50), "0.50");
    assert_eq!(cents_to_string(1250), "12.50");
    assert_eq!(cents_to_string(100), "1.00");
}
